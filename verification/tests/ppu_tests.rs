use rustnes::memory_map::PPUBus;
use rustnes::ppu::register::{STATUS_SPRITE_ZERO_HIT, STATUS_VBLANK};
use rustnes::ppu::{PPU, background, sprite};
use rustnes::rom::mapper_0::Mapper0;
use rustnes::types::Mirroring;

fn new_ppu(chr: Vec<u8>) -> PPU {
    let mapper = Mapper0 {
        prg: vec![0u8; 0x4000],
        chr,
        mirroring: Mirroring::Horizontal,
        mirrored: true,
    };
    PPU::new(PPUBus::new(mapper))
}

fn blank_ppu() -> PPU {
    new_ppu(vec![0u8; 0x2000])
}

// Scan advancement: one dot at a time, (dot + 1) mod 341, line wrap at the
// end of the pre-render line.
#[test]
fn scan_advancement() {
    let mut ppu = blank_ppu();
    ppu.step();
    assert_eq!(ppu.scan.dot, 1);
    assert_eq!(ppu.scan.line, 0);
    for _ in 0..340 {
        ppu.step();
    }
    assert_eq!(ppu.scan.dot, 0);
    assert_eq!(ppu.scan.line, 1);
}

// With rendering disabled every frame takes the full 341 x 262 grid of
// 89342 dots.
#[test]
fn dots_per_frame_rendering_disabled() {
    let mut ppu = blank_ppu();
    for _ in 0..2 {
        let start = ppu.frames;
        let mut dots: u32 = 0;
        while ppu.frames == start {
            ppu.step();
            dots += 1;
        }
        assert_eq!(dots, 89342);
    }
}

// With background rendering enabled, pre-render dot 340 is skipped every
// other frame, so frame lengths alternate.
#[test]
fn odd_frame_dot_skip() {
    let mut ppu = blank_ppu();
    ppu.write_register(0x2001, 0x08);
    let mut lengths: Vec<u32> = Vec::new();
    for _ in 0..4 {
        let start = ppu.frames;
        let mut dots: u32 = 0;
        while ppu.frames == start {
            ppu.step();
            dots += 1;
        }
        lengths.push(dots);
    }
    assert_eq!(lengths, vec![89342, 89341, 89342, 89341]);
}

// V-blank begins at line 241 dot 1 and raises NMI when enabled.
#[test]
fn vblank_raises_nmi() {
    let mut ppu = blank_ppu();
    ppu.write_register(0x2000, 0x80);
    let mut nmi_at: Option<u32> = None;
    for i in 0..90000u32 {
        if ppu.step().is_some() {
            nmi_at = Some(i);
            break;
        }
    }
    // The dot at index 241 * 341 + 1 of the frame is processed by that
    // many steps from the frame start.
    assert_eq!(nmi_at, Some(241 * 341 + 1));
    assert!(ppu.reg.status.is_set(STATUS_VBLANK));
}

// Reading $2002 reports V-blank, then clears it and resets the write
// toggle `w`.
#[test]
fn read_status_clears_vblank_and_toggle() {
    let mut ppu = blank_ppu();
    ppu.reg.status.set(STATUS_VBLANK);
    ppu.reg.write_toggle = true;

    let value = ppu.read_register(0x2002);
    assert_eq!(value & 0x80, 0x80);
    assert!(!ppu.reg.status.is_set(STATUS_VBLANK));
    assert!(!ppu.reg.write_toggle);

    let value = ppu.read_register(0x2002);
    assert_eq!(value & 0x80, 0x00);
}

// $2007 reads of VRAM below the palettes go through the one-step read
// buffer; palette reads pass through immediately.
#[test]
fn data_port_buffered_reads() {
    let mut ppu = blank_ppu();

    // v = 0x2100, write two bytes
    ppu.write_register(0x2006, 0x21);
    ppu.write_register(0x2006, 0x00);
    ppu.write_register(0x2007, 0xAB);
    ppu.write_register(0x2007, 0xCD);

    // point back and read: the first read returns the stale buffer
    ppu.write_register(0x2006, 0x21);
    ppu.write_register(0x2006, 0x00);
    assert_eq!(ppu.read_register(0x2007), 0x00);
    assert_eq!(ppu.read_register(0x2007), 0xAB);
    assert_eq!(ppu.read_register(0x2007), 0xCD);

    // palette reads are immediate
    ppu.write_register(0x2006, 0x3F);
    ppu.write_register(0x2006, 0x01);
    ppu.write_register(0x2007, 0x2C);
    ppu.write_register(0x2006, 0x3F);
    ppu.write_register(0x2006, 0x01);
    assert_eq!(ppu.read_register(0x2007), 0x2C);
}

// The final pixel is a 6-bit palette index; with both layers transparent
// (in particular with rendering disabled) it is the backdrop at $3F00.
#[test]
fn select_pixel_backdrop_and_priority() {
    let mut ppu = blank_ppu();
    ppu.write_register(0x2006, 0x3F);
    ppu.write_register(0x2006, 0x00);
    ppu.write_register(0x2007, 0x21);

    let bg_off = background::Pixel { enabled: false, color: 0 };
    let spr_off = sprite::Pixel { enabled: false, color: 0, behide_background: true };
    assert_eq!(ppu.select_pixel(bg_off, spr_off), 0x21);

    let bg_on = background::Pixel { enabled: true, color: 5 };
    let spr_front = sprite::Pixel { enabled: true, color: 9, behide_background: false };
    let spr_back = sprite::Pixel { enabled: true, color: 9, behide_background: true };
    assert_eq!(ppu.select_pixel(bg_on, spr_off), 5);
    assert_eq!(ppu.select_pixel(bg_off, spr_front), 9);
    assert_eq!(ppu.select_pixel(bg_on, spr_front), 9);
    assert_eq!(ppu.select_pixel(bg_on, spr_back), 5);
    assert!(ppu.select_pixel(bg_on, spr_front) <= 63);
}

// Sprite-0 hit: an opaque sprite-0 pixel over an opaque background pixel
// sets the status bit, which stays set until pre-render dot 1.
#[test]
fn sprite_zero_hit() {
    let mut chr = vec![0u8; 0x2000];
    // tile 0 (background): low plane all ones, so every pixel is opaque
    for i in 0..8 {
        chr[i] = 0xFF;
    }
    // tile 1 (sprite): low plane all ones
    for i in 16..24 {
        chr[i] = 0xFF;
    }
    let mut ppu = new_ppu(chr);

    // sprite 0: top at y = 49 so it covers lines 50-57, x = 100, tile 1
    ppu.write_register(0x2003, 0x00);
    ppu.write_register(0x2004, 49);
    ppu.write_register(0x2004, 1);
    ppu.write_register(0x2004, 0x00);
    ppu.write_register(0x2004, 100);
    // show background and sprites, including the left columns
    ppu.write_register(0x2001, 0x1E);

    let mut steps: u32 = 0;
    while !ppu.reg.status.is_set(STATUS_SPRITE_ZERO_HIT) {
        ppu.step();
        steps += 1;
        assert!(steps < 89342);
    }
    // The overlapped pixel (x = 100, line = 50) is processed at dot 102 of
    // line 50; the flag is set during that dot.
    assert_eq!(steps, 50 * 341 + 102 + 1);
    assert_eq!(ppu.scan.line, 50);
    assert_eq!(ppu.read_register(0x2002) & 0x40, 0x40);

    // It stays set until dot 1 of the pre-render line.
    while !(ppu.scan.line == 261 && ppu.scan.dot == 1) {
        ppu.step();
        assert!(ppu.reg.status.is_set(STATUS_SPRITE_ZERO_HIT));
    }
    ppu.step();
    assert!(!ppu.reg.status.is_set(STATUS_SPRITE_ZERO_HIT));
}

// Reads of $2004 during the sprite-evaluation window of a visible line
// return 0xFF; outside it they return the addressed OAM byte.
#[test]
fn oam_data_reads_during_evaluation() {
    let mut ppu = blank_ppu();
    ppu.write_register(0x2003, 0x00);
    ppu.write_register(0x2004, 0x37);
    ppu.write_register(0x2003, 0x00);

    // at line 0 dot 0 the window has not begun
    assert_eq!(ppu.read_register(0x2004), 0x37);
    ppu.step();
    // line 0, dot 1: inside the evaluation window
    assert_eq!(ppu.read_register(0x2004), 0xFF);
    while !(ppu.scan.dot == 65) {
        ppu.step();
    }
    assert_eq!(ppu.read_register(0x2004), 0x37);
}

// A $2002 read on the dot V-blank would be set reads bit 7 as zero and
// suppresses the flag set (and the NMI) for that frame.
#[test]
fn vblank_read_on_set_dot_suppresses() {
    let mut ppu = blank_ppu();
    ppu.write_register(0x2000, 0x80);
    // run to line 241, dot 0
    for _ in 0..241 * 341 {
        assert!(ppu.step().is_none());
    }
    assert_eq!(ppu.scan.line, 241);
    assert_eq!(ppu.scan.dot, 0);

    let value = ppu.read_register(0x2002);
    assert_eq!(value & 0x80, 0x00);

    // dots 0 and 1 of line 241: no NMI, and the flag stays clear
    assert!(ppu.step().is_none());
    assert!(ppu.step().is_none());
    assert!(!ppu.reg.status.is_set(STATUS_VBLANK));

    // the suppression is consumed: the next frame's V-blank sets normally
    let mut nmi = false;
    for _ in 0..89342 {
        if ppu.step().is_some() {
            nmi = true;
            break;
        }
    }
    assert!(nmi);
    assert!(ppu.reg.status.is_set(STATUS_VBLANK));
}

// With rendering disabled the emitted pixel for every visible dot is the
// backdrop entry at $3F00.
#[test]
fn disabled_rendering_emits_backdrop() {
    let mut ppu = blank_ppu();
    ppu.write_register(0x2006, 0x3F);
    ppu.write_register(0x2006, 0x00);
    ppu.write_register(0x2007, 0x17);

    for _ in 0..1000 {
        ppu.step();
    }
    assert_eq!(ppu.last_pixel, 0x17);
    assert!(ppu.last_pixel <= 63);
}

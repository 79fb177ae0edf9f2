//! The trace formatter: captures the CPU state at the instant before an
//! instruction executes and renders the nestest-convention log line.  All
//! memory fetches go through side-effect-free peeks, so tracing never
//! advances the machine.

use vstd::prelude::*;

use crate::cpu::addressing_modes::AddressingMode;
use crate::cpu::instructions::{decode, spec_decode, Mnemonic, Opcode};
use crate::cpu::{CPUCycle, CPU};
use crate::types::Memory;

verus! {

/// Every byte of `s` is ASCII.
pub open spec fn spec_ascii(s: Seq<u8>) -> bool {
    forall|i: int| 0 <= i < s.len() ==> s[i] < 0x80
}

/// The ASCII digit for a hex nibble.
pub open spec fn spec_hex_digit(n: u8) -> u8 {
    if n % 16 < 10 {
        (0x30 + n % 16) as u8
    } else {
        (0x41 + (n % 16 - 10)) as u8
    }
}

/// The two ASCII digits of a byte, high nibble first.
pub open spec fn spec_hex2(b: u8) -> Seq<u8> {
    seq![spec_hex_digit(b / 16), spec_hex_digit(b % 16)]
}

/// The four ASCII digits of a word, high byte first.
pub open spec fn spec_hex4(w: u16) -> Seq<u8> {
    spec_hex2((w / 256) as u8) + spec_hex2((w % 256) as u8)
}

/// The ASCII decimal digits of `n`, most significant first.
pub open spec fn spec_dec(n: int) -> Seq<u8>
    decreases n,
{
    if n < 10 {
        seq![(0x30 + (if 0 <= n {
            n % 10
        } else {
            0
        })) as u8]
    } else {
        spec_dec(n / 10) + seq![(0x30 + n % 10) as u8]
    }
}

/// Append the ASCII digit of a hex nibble.
fn push_hex_digit(out: &mut Vec<u8>, n: u8)
    ensures
        final(out)@ == old(out)@ + seq![spec_hex_digit(n)],
        spec_hex_digit(n) < 0x80,
{
    let nib = n % 16;
    if nib < 10 {
        out.push(0x30 + nib);
    } else {
        out.push(0x41 + (nib - 10));
    }
}

/// Append a byte as two uppercase hex digits.
pub fn push_hex2(out: &mut Vec<u8>, b: u8)
    ensures
        final(out)@ == old(out)@ + spec_hex2(b),
        final(out)@.len() == old(out)@.len() + 2,
        spec_ascii(old(out)@) ==> spec_ascii(final(out)@),
{
    push_hex_digit(out, b / 16);
    push_hex_digit(out, b % 16);
    proof {
        assert(out@ =~= old(out)@ + spec_hex2(b));
    }
}

/// Append a word as four uppercase hex digits.
pub fn push_hex4(out: &mut Vec<u8>, w: u16)
    ensures
        final(out)@ == old(out)@ + spec_hex4(w),
        final(out)@.len() == old(out)@.len() + 4,
        spec_ascii(old(out)@) ==> spec_ascii(final(out)@),
{
    push_hex2(out, (w / 256) as u8);
    push_hex2(out, (w % 256) as u8);
    proof {
        assert(out@ =~= old(out)@ + spec_hex4(w));
    }
}

/// Append `n` in decimal.
pub fn push_dec(out: &mut Vec<u8>, n: CPUCycle)
    ensures
        final(out)@ == old(out)@ + spec_dec(n as int),
        spec_ascii(old(out)@) ==> spec_ascii(final(out)@),
    decreases n,
{
    if n < 10 {
        out.push(0x30 + (n % 10) as u8);
        proof {
            assert(out@ =~= old(out)@ + spec_dec(n as int));
        }
    } else {
        push_dec(out, n / 10);
        out.push(0x30 + (n % 10) as u8);
        proof {
            assert(out@ =~= old(out)@ + spec_dec(n as int));
        }
    }
}

/// Append `count` spaces.
fn push_spaces(out: &mut Vec<u8>, count: usize)
    ensures
        final(out)@ == old(out)@ + spec_spaces(count as int),
        final(out)@.len() == old(out)@.len() + count,
        spec_ascii(old(out)@) ==> spec_ascii(final(out)@),
        forall|i: int| 0 <= i < old(out)@.len() ==> final(out)@[i] == old(out)@[i],
{
    let mut i: usize = 0;
    while i < count
        invariant
            i <= count,
            out@.len() == old(out)@.len() + i,
            forall|j: int| 0 <= j < old(out)@.len() ==> out@[j] == old(out)@[j],
            forall|j: int| old(out)@.len() <= j < out@.len() ==> out@[j] == 0x20u8,
        decreases count - i,
    {
        out.push(0x20);
        i = i + 1;
    }
    proof {
        assert(out@ =~= old(out)@ + spec_spaces(count as int));
    }
}

/// Append a byte string.
fn push_bytes(out: &mut Vec<u8>, bytes: &[u8])
    ensures
        final(out)@ == old(out)@ + bytes@,
        final(out)@.len() == old(out)@.len() + bytes@.len(),
        spec_ascii(old(out)@) && spec_ascii(bytes@) ==> spec_ascii(final(out)@),
{
    let mut i: usize = 0;
    while i < bytes.len()
        invariant
            i <= bytes@.len(),
            out@ == old(out)@ + bytes@.subrange(0, i as int),
        decreases bytes@.len() - i,
    {
        out.push(bytes[i]);
        proof {
            assert(out@ =~= old(out)@ + bytes@.subrange(0, i + 1));
        }
        i = i + 1;
    }
    proof {
        assert(bytes@.subrange(0, bytes@.len() as int) =~= bytes@);
    }
}

/// One captured pre-instruction state with its rendered disassembly column.
pub struct Trace {
    pub pc: u16,
    pub operation: u8,
    pub operand_1: u8,
    pub operand_2: u8,
    pub a: u8,
    pub x: u8,
    pub y: u8,
    pub sp: u8,
    pub p: u8,
    pub cycle: CPUCycle,
    pub opcode: Opcode,
    /// The `*MNE operand` column, already padded to its fixed 33-byte width.
    pub assembly_code: Vec<u8>,
}

impl<M: Memory> CPU<M> {
    /// A side-effect-free read, for disassembly.
    pub fn peek(&self, addr: u16) -> (r: u8)
        requires
            self.inv(),
        ensures
            r == M::v_read_result(self.bus@, addr),
    {
        self.bus.peek(addr)
    }

    /// First operand byte, at PC + 1.
    pub fn operand_1(&self) -> (r: u8)
        requires
            self.inv(),
        ensures
            r == M::v_read_result(self.bus@, self.pc.wrapping_add(1)),
    {
        self.peek(self.pc.wrapping_add(1))
    }

    /// Second operand byte, at PC + 2.
    pub fn operand_2(&self) -> (r: u8)
        requires
            self.inv(),
        ensures
            r == M::v_read_result(self.bus@, self.pc.wrapping_add(2)),
    {
        self.peek(self.pc.wrapping_add(2))
    }

    /// Both operand bytes as a little-endian word.
    pub fn operand_16(&self) -> (r: u16)
        requires
            self.inv(),
        ensures
            r == ((M::v_read_result(self.bus@, self.pc.wrapping_add(1)) as u16) | ((
            M::v_read_result(self.bus@, self.pc.wrapping_add(2)) as u16) << 8)),
    {
        (self.operand_1() as u16) | ((self.operand_2() as u16) << 8)
    }

    /// Side-effect-free pointer fetch with the page-wrap quirk.
    pub fn peek_on_indirect(&self, operand: u16) -> (r: u16)
        requires
            self.inv(),
        ensures
            ({
                let low = M::v_read_result(self.bus@, operand);
                let high_addr = (operand & 0xFF00) | (operand.wrapping_add(1) & 0x00FF);
                let high = M::v_read_result(self.bus@, high_addr);
                r == ((low as u16) | ((high as u16) << 8))
            }),
    {
        let low = self.peek(operand) as u16;
        let high_addr = (operand & 0xFF00) | (operand.wrapping_add(1) & 0x00FF);
        let high = self.peek(high_addr) as u16;
        low | (high << 8)
    }
}

/// The instruction's byte count, opcode included.
pub open spec fn spec_instruction_length(mode: AddressingMode) -> u8 {
    match mode {
        AddressingMode::Immediate | AddressingMode::ZeroPage | AddressingMode::ZeroPageX
            | AddressingMode::ZeroPageY | AddressingMode::Relative
            | AddressingMode::IndirectIndexed | AddressingMode::IndexedIndirect => 2,
        AddressingMode::Indirect | AddressingMode::Absolute | AddressingMode::AbsoluteX { .. }
            | AddressingMode::AbsoluteY { .. } => 3,
        _ => 1,
    }
}

impl AddressingMode {
    /// The instruction's byte count, opcode included.
    pub fn instruction_length(&self) -> (r: u8)
        ensures
            r == spec_instruction_length(*self),
            1 <= r <= 3,
    {
        match self {
            AddressingMode::Immediate | AddressingMode::ZeroPage | AddressingMode::ZeroPageX
                | AddressingMode::ZeroPageY | AddressingMode::Relative
                | AddressingMode::IndirectIndexed | AddressingMode::IndexedIndirect => 2,
            AddressingMode::Indirect | AddressingMode::Absolute | AddressingMode::AbsoluteX {
                ..
            } | AddressingMode::AbsoluteY { .. } => 3,
            _ => 1,
        }
    }
}


/// The three ASCII letters of a mnemonic.
#[verifier::opaque]
pub open spec fn spec_mnemonic_bytes(m: Mnemonic) -> Seq<u8> {
    match m {
        Mnemonic::LDA => seq![0x4Cu8, 0x44u8, 0x41u8],
        Mnemonic::LDX => seq![0x4Cu8, 0x44u8, 0x58u8],
        Mnemonic::LDY => seq![0x4Cu8, 0x44u8, 0x59u8],
        Mnemonic::STA => seq![0x53u8, 0x54u8, 0x41u8],
        Mnemonic::STX => seq![0x53u8, 0x54u8, 0x58u8],
        Mnemonic::STY => seq![0x53u8, 0x54u8, 0x59u8],
        Mnemonic::TAX => seq![0x54u8, 0x41u8, 0x58u8],
        Mnemonic::TSX => seq![0x54u8, 0x53u8, 0x58u8],
        Mnemonic::TAY => seq![0x54u8, 0x41u8, 0x59u8],
        Mnemonic::TXA => seq![0x54u8, 0x58u8, 0x41u8],
        Mnemonic::TXS => seq![0x54u8, 0x58u8, 0x53u8],
        Mnemonic::TYA => seq![0x54u8, 0x59u8, 0x41u8],
        Mnemonic::PHA => seq![0x50u8, 0x48u8, 0x41u8],
        Mnemonic::PHP => seq![0x50u8, 0x48u8, 0x50u8],
        Mnemonic::PLA => seq![0x50u8, 0x4Cu8, 0x41u8],
        Mnemonic::PLP => seq![0x50u8, 0x4Cu8, 0x50u8],
        Mnemonic::AND => seq![0x41u8, 0x4Eu8, 0x44u8],
        Mnemonic::EOR => seq![0x45u8, 0x4Fu8, 0x52u8],
        Mnemonic::ORA => seq![0x4Fu8, 0x52u8, 0x41u8],
        Mnemonic::BIT => seq![0x42u8, 0x49u8, 0x54u8],
        Mnemonic::ADC => seq![0x41u8, 0x44u8, 0x43u8],
        Mnemonic::SBC => seq![0x53u8, 0x42u8, 0x43u8],
        Mnemonic::CMP => seq![0x43u8, 0x4Du8, 0x50u8],
        Mnemonic::CPX => seq![0x43u8, 0x50u8, 0x58u8],
        Mnemonic::CPY => seq![0x43u8, 0x50u8, 0x59u8],
        Mnemonic::INC => seq![0x49u8, 0x4Eu8, 0x43u8],
        Mnemonic::INX => seq![0x49u8, 0x4Eu8, 0x58u8],
        Mnemonic::INY => seq![0x49u8, 0x4Eu8, 0x59u8],
        Mnemonic::DEC => seq![0x44u8, 0x45u8, 0x43u8],
        Mnemonic::DEX => seq![0x44u8, 0x45u8, 0x58u8],
        Mnemonic::DEY => seq![0x44u8, 0x45u8, 0x59u8],
        Mnemonic::ASL => seq![0x41u8, 0x53u8, 0x4Cu8],
        Mnemonic::LSR => seq![0x4Cu8, 0x53u8, 0x52u8],
        Mnemonic::ROL => seq![0x52u8, 0x4Fu8, 0x4Cu8],
        Mnemonic::ROR => seq![0x52u8, 0x4Fu8, 0x52u8],
        Mnemonic::JMP => seq![0x4Au8, 0x4Du8, 0x50u8],
        Mnemonic::JSR => seq![0x4Au8, 0x53u8, 0x52u8],
        Mnemonic::RTS => seq![0x52u8, 0x54u8, 0x53u8],
        Mnemonic::RTI => seq![0x52u8, 0x54u8, 0x49u8],
        Mnemonic::BCC => seq![0x42u8, 0x43u8, 0x43u8],
        Mnemonic::BCS => seq![0x42u8, 0x43u8, 0x53u8],
        Mnemonic::BEQ => seq![0x42u8, 0x45u8, 0x51u8],
        Mnemonic::BMI => seq![0x42u8, 0x4Du8, 0x49u8],
        Mnemonic::BNE => seq![0x42u8, 0x4Eu8, 0x45u8],
        Mnemonic::BPL => seq![0x42u8, 0x50u8, 0x4Cu8],
        Mnemonic::BVC => seq![0x42u8, 0x56u8, 0x43u8],
        Mnemonic::BVS => seq![0x42u8, 0x56u8, 0x53u8],
        Mnemonic::CLC => seq![0x43u8, 0x4Cu8, 0x43u8],
        Mnemonic::CLD => seq![0x43u8, 0x4Cu8, 0x44u8],
        Mnemonic::CLI => seq![0x43u8, 0x4Cu8, 0x49u8],
        Mnemonic::CLV => seq![0x43u8, 0x4Cu8, 0x56u8],
        Mnemonic::SEC => seq![0x53u8, 0x45u8, 0x43u8],
        Mnemonic::SED => seq![0x53u8, 0x45u8, 0x44u8],
        Mnemonic::SEI => seq![0x53u8, 0x45u8, 0x49u8],
        Mnemonic::BRK => seq![0x42u8, 0x52u8, 0x4Bu8],
        Mnemonic::NOP => seq![0x4Eu8, 0x4Fu8, 0x50u8],
        Mnemonic::LAX => seq![0x4Cu8, 0x41u8, 0x58u8],
        Mnemonic::SAX => seq![0x53u8, 0x41u8, 0x58u8],
        Mnemonic::DCP => seq![0x44u8, 0x43u8, 0x50u8],
        Mnemonic::ISB => seq![0x49u8, 0x53u8, 0x42u8],
        Mnemonic::SLO => seq![0x53u8, 0x4Cu8, 0x4Fu8],
        Mnemonic::RLA => seq![0x52u8, 0x4Cu8, 0x41u8],
        Mnemonic::SRE => seq![0x53u8, 0x52u8, 0x45u8],
        Mnemonic::RRA => seq![0x52u8, 0x52u8, 0x41u8],
    }
}

/// Append the three-letter mnemonic, as ASCII.
fn push_mnemonic(out: &mut Vec<u8>, m: Mnemonic)
    ensures
        final(out)@ == old(out)@ + spec_mnemonic_bytes(m),
        final(out)@.len() == old(out)@.len() + 3,
        spec_ascii(old(out)@) ==> spec_ascii(final(out)@),
        forall|i: int| 0 <= i < old(out)@.len() ==> final(out)@[i] == old(out)@[i],
{
    let name: [u8; 3] = match m {
        Mnemonic::LDA => [0x4C, 0x44, 0x41],
        Mnemonic::LDX => [0x4C, 0x44, 0x58],
        Mnemonic::LDY => [0x4C, 0x44, 0x59],
        Mnemonic::STA => [0x53, 0x54, 0x41],
        Mnemonic::STX => [0x53, 0x54, 0x58],
        Mnemonic::STY => [0x53, 0x54, 0x59],
        Mnemonic::TAX => [0x54, 0x41, 0x58],
        Mnemonic::TSX => [0x54, 0x53, 0x58],
        Mnemonic::TAY => [0x54, 0x41, 0x59],
        Mnemonic::TXA => [0x54, 0x58, 0x41],
        Mnemonic::TXS => [0x54, 0x58, 0x53],
        Mnemonic::TYA => [0x54, 0x59, 0x41],
        Mnemonic::PHA => [0x50, 0x48, 0x41],
        Mnemonic::PHP => [0x50, 0x48, 0x50],
        Mnemonic::PLA => [0x50, 0x4C, 0x41],
        Mnemonic::PLP => [0x50, 0x4C, 0x50],
        Mnemonic::AND => [0x41, 0x4E, 0x44],
        Mnemonic::EOR => [0x45, 0x4F, 0x52],
        Mnemonic::ORA => [0x4F, 0x52, 0x41],
        Mnemonic::BIT => [0x42, 0x49, 0x54],
        Mnemonic::ADC => [0x41, 0x44, 0x43],
        Mnemonic::SBC => [0x53, 0x42, 0x43],
        Mnemonic::CMP => [0x43, 0x4D, 0x50],
        Mnemonic::CPX => [0x43, 0x50, 0x58],
        Mnemonic::CPY => [0x43, 0x50, 0x59],
        Mnemonic::INC => [0x49, 0x4E, 0x43],
        Mnemonic::INX => [0x49, 0x4E, 0x58],
        Mnemonic::INY => [0x49, 0x4E, 0x59],
        Mnemonic::DEC => [0x44, 0x45, 0x43],
        Mnemonic::DEX => [0x44, 0x45, 0x58],
        Mnemonic::DEY => [0x44, 0x45, 0x59],
        Mnemonic::ASL => [0x41, 0x53, 0x4C],
        Mnemonic::LSR => [0x4C, 0x53, 0x52],
        Mnemonic::ROL => [0x52, 0x4F, 0x4C],
        Mnemonic::ROR => [0x52, 0x4F, 0x52],
        Mnemonic::JMP => [0x4A, 0x4D, 0x50],
        Mnemonic::JSR => [0x4A, 0x53, 0x52],
        Mnemonic::RTS => [0x52, 0x54, 0x53],
        Mnemonic::RTI => [0x52, 0x54, 0x49],
        Mnemonic::BCC => [0x42, 0x43, 0x43],
        Mnemonic::BCS => [0x42, 0x43, 0x53],
        Mnemonic::BEQ => [0x42, 0x45, 0x51],
        Mnemonic::BMI => [0x42, 0x4D, 0x49],
        Mnemonic::BNE => [0x42, 0x4E, 0x45],
        Mnemonic::BPL => [0x42, 0x50, 0x4C],
        Mnemonic::BVC => [0x42, 0x56, 0x43],
        Mnemonic::BVS => [0x42, 0x56, 0x53],
        Mnemonic::CLC => [0x43, 0x4C, 0x43],
        Mnemonic::CLD => [0x43, 0x4C, 0x44],
        Mnemonic::CLI => [0x43, 0x4C, 0x49],
        Mnemonic::CLV => [0x43, 0x4C, 0x56],
        Mnemonic::SEC => [0x53, 0x45, 0x43],
        Mnemonic::SED => [0x53, 0x45, 0x44],
        Mnemonic::SEI => [0x53, 0x45, 0x49],
        Mnemonic::BRK => [0x42, 0x52, 0x4B],
        Mnemonic::NOP => [0x4E, 0x4F, 0x50],
        Mnemonic::LAX => [0x4C, 0x41, 0x58],
        Mnemonic::SAX => [0x53, 0x41, 0x58],
        Mnemonic::DCP => [0x44, 0x43, 0x50],
        Mnemonic::ISB => [0x49, 0x53, 0x42],
        Mnemonic::SLO => [0x53, 0x4C, 0x4F],
        Mnemonic::RLA => [0x52, 0x4C, 0x41],
        Mnemonic::SRE => [0x53, 0x52, 0x45],
        Mnemonic::RRA => [0x52, 0x52, 0x41],
    };
    out.push(name[0]);
    out.push(name[1]);
    out.push(name[2]);
    proof {
        reveal(spec_mnemonic_bytes);
        assert(out@ =~= old(out)@ + spec_mnemonic_bytes(m));
    }
}


/// Whether an opcode byte is one of the undocumented opcodes.
#[verifier::opaque]
pub open spec fn spec_is_undocumented_opcode(op: u8) -> bool {
    match op {
0xEB | 0x04 | 0x44 | 0x64 | 0x0C | 0x14 | 0x34 | 0x54 | 0x74 | 0xD4 | 0xF4 | 0x1A | 0x3A
            | 0x5A | 0x7A | 0xDA | 0xFA | 0x1C | 0x3C | 0x5C | 0x7C | 0xDC | 0xFC | 0x80 | 0x82
            | 0x89 | 0xC2 | 0xE2 | 0xA3 | 0xA7 | 0xAF | 0xB3 | 0xB7 | 0xBF | 0x83 | 0x87 | 0x8F
            | 0x97 | 0xC3 | 0xC7 | 0xCF | 0xD3 | 0xD7 | 0xDB | 0xDF | 0xE3 | 0xE7 | 0xEF | 0xF3
            | 0xF7 | 0xFB | 0xFF | 0x03 | 0x07 | 0x0F | 0x13 | 0x17 | 0x1B | 0x1F | 0x23 | 0x27
            | 0x2F | 0x33 | 0x37 | 0x3B | 0x3F | 0x43 | 0x47 | 0x4F | 0x53 | 0x57 | 0x5B | 0x5F
            | 0x63 | 0x67 | 0x6F | 0x73 | 0x77 | 0x7B | 0x7F=> true,
        _ => false,
    }
}

/// The nestest star column: `*` before an undocumented opcode, a space
/// otherwise.
pub open spec fn spec_star(op: u8) -> u8 {
    if spec_is_undocumented_opcode(op) {
        0x2A
    } else {
        0x20
    }
}

/// Whether the nestest convention marks this opcode byte with a star.
pub fn is_undocumented_opcode(op: u8) -> (r: bool)
    ensures
        r == spec_is_undocumented_opcode(op),
{
    proof {
        reveal(spec_is_undocumented_opcode);
    }
    match op {
        0xEB | 0x04 | 0x44 | 0x64 | 0x0C | 0x14 | 0x34 | 0x54 | 0x74 | 0xD4 | 0xF4 | 0x1A | 0x3A
            | 0x5A | 0x7A | 0xDA | 0xFA | 0x1C | 0x3C | 0x5C | 0x7C | 0xDC | 0xFC | 0x80 | 0x82
            | 0x89 | 0xC2 | 0xE2 | 0xA3 | 0xA7 | 0xAF | 0xB3 | 0xB7 | 0xBF | 0x83 | 0x87 | 0x8F
            | 0x97 | 0xC3 | 0xC7 | 0xCF | 0xD3 | 0xD7 | 0xDB | 0xDF | 0xE3 | 0xE7 | 0xEF | 0xF3
            | 0xF7 | 0xFB | 0xFF | 0x03 | 0x07 | 0x0F | 0x13 | 0x17 | 0x1B | 0x1F | 0x23 | 0x27
            | 0x2F | 0x33 | 0x37 | 0x3B | 0x3F | 0x43 | 0x47 | 0x4F | 0x53 | 0x57 | 0x5B | 0x5F
            | 0x63 | 0x67 | 0x6F | 0x73 | 0x77 | 0x7B | 0x7F => true,
        _ => false,
    }
}

/// The effective address an addressing mode resolves to, over
/// side-effect-free reads.
pub open spec fn spec_decode_address<M: Memory>(
    v: M::V,
    pc: u16,
    x: u8,
    y: u8,
    mode: AddressingMode,
) -> u16 {
    let op1 = M::v_read_result(v, pc.wrapping_add(1));
    let op2 = M::v_read_result(v, pc.wrapping_add(2));
    let op16 = (op1 as u16) | ((op2 as u16) << 8);
    match mode {
        AddressingMode::Implicit | AddressingMode::Accumulator => 0,
        AddressingMode::Immediate => pc,
        AddressingMode::ZeroPage => op1 as u16,
        AddressingMode::ZeroPageX => (op1.wrapping_add(x) as u16) & 0xFF,
        AddressingMode::ZeroPageY => (op1.wrapping_add(y) as u16) & 0xFF,
        AddressingMode::Absolute => op16,
        AddressingMode::AbsoluteX { .. } => op16.wrapping_add(x as u16),
        AddressingMode::AbsoluteY { .. } => op16.wrapping_add(y as u16),
        AddressingMode::Relative => pc,
        AddressingMode::Indirect => {
            let high_addr = (op16 & 0xFF00) | (op16.wrapping_add(1) & 0x00FF);
            (M::v_read_result(v, op16) as u16) | ((M::v_read_result(v, high_addr) as u16) << 8)
        },
        AddressingMode::IndexedIndirect => {
            let base = (op1.wrapping_add(x) as u16) & 0xFF;
            let high_addr = (base & 0xFF00) | (base.wrapping_add(1) & 0x00FF);
            (M::v_read_result(v, base) as u16) | ((M::v_read_result(v, high_addr) as u16) << 8)
        },
        AddressingMode::IndirectIndexed => {
            let base = op1 as u16;
            let high_addr = (base & 0xFF00) | (base.wrapping_add(1) & 0x00FF);
            let base_ptr = (M::v_read_result(v, base) as u16) | ((M::v_read_result(
                v,
                high_addr,
            ) as u16) << 8);
            base_ptr.wrapping_add(y as u16)
        },
    }
}

/// The effective address the addressing mode resolves to, via peeks.
fn decode_address<M: Memory>(addressing_mode: AddressingMode, cpu: &CPU<M>) -> (r: u16)
    requires
        cpu.inv(),
    ensures
        r == spec_decode_address::<M>(cpu.bus@, cpu.pc, cpu.x, cpu.y, addressing_mode),
{
    match addressing_mode {
        AddressingMode::Implicit | AddressingMode::Accumulator => 0x00,
        AddressingMode::Immediate => cpu.pc,
        AddressingMode::ZeroPage => cpu.operand_1() as u16,
        AddressingMode::ZeroPageX => (cpu.operand_1().wrapping_add(cpu.x) as u16) & 0xFF,
        AddressingMode::ZeroPageY => (cpu.operand_1().wrapping_add(cpu.y) as u16) & 0xFF,
        AddressingMode::Absolute => cpu.operand_16(),
        AddressingMode::AbsoluteX { .. } => cpu.operand_16().wrapping_add(cpu.x as u16),
        AddressingMode::AbsoluteY { .. } => cpu.operand_16().wrapping_add(cpu.y as u16),
        AddressingMode::Relative => cpu.pc,
        AddressingMode::Indirect => cpu.peek_on_indirect(cpu.operand_16()),
        AddressingMode::IndexedIndirect => cpu.peek_on_indirect(
            (cpu.operand_1().wrapping_add(cpu.x) as u16) & 0xFF,
        ),
        AddressingMode::IndirectIndexed => cpu.peek_on_indirect(cpu.operand_1() as u16)
            .wrapping_add(cpu.y as u16),
    }
}


/// `n` ASCII spaces (none when `n` is not positive).
pub open spec fn spec_spaces(n: int) -> Seq<u8> {
    if n <= 0 {
        Seq::empty()
    } else {
        Seq::new(n as nat, |i: int| 0x20u8)
    }
}

/// The nestest-convention operand text for one decoded instruction, before
/// padding: the mode-specific rendering over side-effect-free reads.
#[verifier::opaque]
pub open spec fn spec_operand_text<M: Memory>(
    v: M::V,
    pc: u16,
    x: u8,
    y: u8,
    opcode: Opcode,
) -> Seq<u8> {
    let op1 = M::v_read_result(v, pc.wrapping_add(1));
    let op2 = M::v_read_result(v, pc.wrapping_add(2));
    let op16 = (op1 as u16) | ((op2 as u16) << 8);
    match (opcode.mnemonic, opcode.addressing_mode) {
        (Mnemonic::JMP, AddressingMode::Absolute) | (Mnemonic::JSR, AddressingMode::Absolute) => {
            seq![0x24u8] + spec_hex4(op16)
        },
        (Mnemonic::LSR, AddressingMode::Accumulator) | (Mnemonic::ASL, AddressingMode::Accumulator)
            | (Mnemonic::ROR, AddressingMode::Accumulator) | (
            Mnemonic::ROL,
            AddressingMode::Accumulator,
        ) => seq![0x41u8],
        (_, AddressingMode::Implicit) | (_, AddressingMode::Accumulator) => seq![0x20u8],
        (_, AddressingMode::Immediate) => seq![0x23u8, 0x24u8] + spec_hex2(op1),
        (_, AddressingMode::ZeroPage) => {
            seq![0x24u8] + spec_hex2(op1) + seq![0x20u8, 0x3Du8, 0x20u8] + spec_hex2(
                M::v_read_result(v, op1 as u16),
            )
        },
        (_, AddressingMode::ZeroPageX) => {
            let addr = (op1.wrapping_add(x) as u16) & 0xFF;
            seq![0x24u8] + spec_hex2(op1) + seq![0x2Cu8, 0x58u8, 0x20u8, 0x40u8, 0x20u8]
                + spec_hex2(op1.wrapping_add(x)) + seq![0x20u8, 0x3Du8, 0x20u8] + spec_hex2(
                M::v_read_result(v, addr),
            )
        },
        (_, AddressingMode::ZeroPageY) => {
            let addr = (op1.wrapping_add(y) as u16) & 0xFF;
            seq![0x24u8] + spec_hex2(op1) + seq![0x2Cu8, 0x59u8, 0x20u8, 0x40u8, 0x20u8]
                + spec_hex2(op1.wrapping_add(y)) + seq![0x20u8, 0x3Du8, 0x20u8] + spec_hex2(
                M::v_read_result(v, addr),
            )
        },
        (_, AddressingMode::Absolute) => {
            seq![0x24u8] + spec_hex4(op16) + seq![0x20u8, 0x3Du8, 0x20u8] + spec_hex2(
                M::v_read_result(v, op16),
            )
        },
        (_, AddressingMode::AbsoluteX { .. }) => {
            let addr = op16.wrapping_add(x as u16);
            seq![0x24u8] + spec_hex4(op16) + seq![0x2Cu8, 0x58u8, 0x20u8, 0x40u8, 0x20u8]
                + spec_hex4(addr) + seq![0x20u8, 0x3Du8, 0x20u8] + spec_hex2(
                M::v_read_result(v, addr),
            )
        },
        (_, AddressingMode::AbsoluteY { .. }) => {
            let addr = op16.wrapping_add(y as u16);
            seq![0x24u8] + spec_hex4(op16) + seq![0x2Cu8, 0x59u8, 0x20u8, 0x40u8, 0x20u8]
                + spec_hex4(addr) + seq![0x20u8, 0x3Du8, 0x20u8] + spec_hex2(
                M::v_read_result(v, addr),
            )
        },
        (_, AddressingMode::Relative) => {
            let t = pc.wrapping_add(2).wrapping_add(op1 as u16);
            let target = if op1 >= 0x80 {
                t.wrapping_sub(0x100)
            } else {
                t
            };
            seq![0x24u8] + spec_hex4(target)
        },
        (_, AddressingMode::Indirect) => {
            let high_addr = (op16 & 0xFF00) | (op16.wrapping_add(1) & 0x00FF);
            let ptr = (M::v_read_result(v, op16) as u16) | ((M::v_read_result(
                v,
                high_addr,
            ) as u16) << 8);
            seq![0x28u8, 0x24u8] + spec_hex4(op16) + seq![0x29u8, 0x20u8, 0x3Du8, 0x20u8]
                + spec_hex4(ptr)
        },
        (_, AddressingMode::IndexedIndirect) => {
            let operand_x = op1.wrapping_add(x);
            let base = (operand_x as u16) & 0xFF;
            let high_addr = (base & 0xFF00) | (base.wrapping_add(1) & 0x00FF);
            let addr = (M::v_read_result(v, base) as u16) | ((M::v_read_result(
                v,
                high_addr,
            ) as u16) << 8);
            seq![0x28u8, 0x24u8] + spec_hex2(op1) + seq![
                0x2Cu8,
                0x58u8,
                0x29u8,
                0x20u8,
                0x40u8,
                0x20u8,
            ] + spec_hex2(operand_x) + seq![0x20u8, 0x3Du8, 0x20u8] + spec_hex4(addr) + seq![
                0x20u8,
                0x3Du8,
                0x20u8,
            ] + spec_hex2(M::v_read_result(v, addr))
        },
        (_, AddressingMode::IndirectIndexed) => {
            let base = op1 as u16;
            let high_addr = (base & 0xFF00) | (base.wrapping_add(1) & 0x00FF);
            let base_ptr = (M::v_read_result(v, base) as u16) | ((M::v_read_result(
                v,
                high_addr,
            ) as u16) << 8);
            let addr = base_ptr.wrapping_add(y as u16);
            seq![0x28u8, 0x24u8] + spec_hex2(op1) + seq![
                0x29u8,
                0x2Cu8,
                0x59u8,
                0x20u8,
                0x3Du8,
                0x20u8,
            ] + spec_hex4(base_ptr) + seq![0x20u8, 0x40u8, 0x20u8] + spec_hex4(addr) + seq![
                0x20u8,
                0x3Du8,
                0x20u8,
            ] + spec_hex2(M::v_read_result(v, addr))
        },
    }
}

/// Render the addressing-mode-specific operand column, padded to 28 bytes.
fn push_operand_column<M: Memory>(out: &mut Vec<u8>, opcode: Opcode, cpu: &CPU<M>)
    requires
        cpu.inv(),
    ensures
        final(out)@.len() == old(out)@.len() + 28,
        spec_ascii(old(out)@) ==> spec_ascii(final(out)@),
        forall|i: int| 0 <= i < old(out)@.len() ==> final(out)@[i] == old(out)@[i],
        ({
            let text = spec_operand_text::<M>(cpu.bus@, cpu.pc, cpu.x, cpu.y, opcode);
            final(out)@ == old(out)@ + text + spec_spaces(28 - text.len())
        }),
{
    match opcode.addressing_mode {
        AddressingMode::Implicit | AddressingMode::Accumulator | AddressingMode::Immediate
            | AddressingMode::ZeroPage | AddressingMode::ZeroPageX | AddressingMode::ZeroPageY
            | AddressingMode::Relative => push_operand_column_short(out, opcode, cpu),
        _ => push_operand_column_long(out, opcode, cpu),
    }
}

/// The operand column for the one- and two-byte addressing modes.
#[verifier::rlimit(100)]
fn push_operand_column_short<M: Memory>(out: &mut Vec<u8>, opcode: Opcode, cpu: &CPU<M>)
    requires
        cpu.inv(),
        opcode.addressing_mode is Implicit || opcode.addressing_mode is Accumulator
            || opcode.addressing_mode is Immediate || opcode.addressing_mode is ZeroPage
            || opcode.addressing_mode is ZeroPageX || opcode.addressing_mode is ZeroPageY
            || opcode.addressing_mode is Relative,
    ensures
        final(out)@.len() == old(out)@.len() + 28,
        spec_ascii(old(out)@) ==> spec_ascii(final(out)@),
        forall|i: int| 0 <= i < old(out)@.len() ==> final(out)@[i] == old(out)@[i],
        ({
            let text = spec_operand_text::<M>(cpu.bus@, cpu.pc, cpu.x, cpu.y, opcode);
            final(out)@ == old(out)@ + text + spec_spaces(28 - text.len())
        }),
{
    proof {
        reveal(spec_operand_text);
    }
    let start = out.len();
    match (opcode.mnemonic, opcode.addressing_mode) {
        (Mnemonic::LSR, AddressingMode::Accumulator) | (Mnemonic::ASL, AddressingMode::Accumulator)
            | (Mnemonic::ROR, AddressingMode::Accumulator) | (
            Mnemonic::ROL,
            AddressingMode::Accumulator,
        ) => {
            out.push(0x41);
        },
        (_, AddressingMode::Implicit) | (_, AddressingMode::Accumulator) => {
            out.push(0x20);
        },
        (_, AddressingMode::Immediate) => {
            out.push(0x23);
            out.push(0x24);
            push_hex2(out, cpu.operand_1());
        },
        (_, AddressingMode::ZeroPage) => {
            out.push(0x24);
            push_hex2(out, cpu.operand_1());
            push_bytes(out, &[0x20, 0x3D, 0x20]);
            push_hex2(out, cpu.peek(decode_address(opcode.addressing_mode, cpu)));
        },
        (_, AddressingMode::ZeroPageX) => {
            out.push(0x24);
            push_hex2(out, cpu.operand_1());
            push_bytes(out, &[0x2C, 0x58, 0x20, 0x40, 0x20]);
            push_hex2(out, cpu.operand_1().wrapping_add(cpu.x));
            push_bytes(out, &[0x20, 0x3D, 0x20]);
            push_hex2(out, cpu.peek(decode_address(opcode.addressing_mode, cpu)));
        },
        (_, AddressingMode::ZeroPageY) => {
            out.push(0x24);
            push_hex2(out, cpu.operand_1());
            push_bytes(out, &[0x2C, 0x59, 0x20, 0x40, 0x20]);
            push_hex2(out, cpu.operand_1().wrapping_add(cpu.y));
            push_bytes(out, &[0x20, 0x3D, 0x20]);
            push_hex2(out, cpu.peek(decode_address(opcode.addressing_mode, cpu)));
        },
        (_, _) => {
            // unreachable: the dispatcher routes the long modes elsewhere
            let off = cpu.operand_1();
            let t = cpu.pc.wrapping_add(2).wrapping_add(off as u16);
            let target = if off >= 0x80 {
                t.wrapping_sub(0x100)
            } else {
                t
            };
            out.push(0x24);
            push_hex4(out, target);
        },
    }
    let written = out.len() - start;
    if written < 28 {
        push_spaces(out, 28 - written);
    }
    proof {
        let text = spec_operand_text::<M>(cpu.bus@, cpu.pc, cpu.x, cpu.y, opcode);
        assert(out@ =~= old(out)@ + text + spec_spaces(28 - text.len()));
    }
}

/// The operand column for the absolute addressing modes.
#[verifier::rlimit(100)]
fn push_operand_column_long<M: Memory>(out: &mut Vec<u8>, opcode: Opcode, cpu: &CPU<M>)
    requires
        cpu.inv(),
        opcode.addressing_mode is Absolute || opcode.addressing_mode is AbsoluteX
            || opcode.addressing_mode is AbsoluteY || opcode.addressing_mode is Indirect
            || opcode.addressing_mode is IndexedIndirect
            || opcode.addressing_mode is IndirectIndexed,
    ensures
        final(out)@.len() == old(out)@.len() + 28,
        spec_ascii(old(out)@) ==> spec_ascii(final(out)@),
        forall|i: int| 0 <= i < old(out)@.len() ==> final(out)@[i] == old(out)@[i],
        ({
            let text = spec_operand_text::<M>(cpu.bus@, cpu.pc, cpu.x, cpu.y, opcode);
            final(out)@ == old(out)@ + text + spec_spaces(28 - text.len())
        }),
{
    match opcode.addressing_mode {
        AddressingMode::Absolute | AddressingMode::AbsoluteX { .. } | AddressingMode::AbsoluteY {
            ..
        } => push_operand_column_absolute(out, opcode, cpu),
        _ => push_operand_column_indirect(out, opcode, cpu),
    }
}

/// The operand column for the absolute modes.
#[verifier::rlimit(100)]
fn push_operand_column_absolute<M: Memory>(out: &mut Vec<u8>, opcode: Opcode, cpu: &CPU<M>)
    requires
        cpu.inv(),
        opcode.addressing_mode is Absolute || opcode.addressing_mode is AbsoluteX
            || opcode.addressing_mode is AbsoluteY,
    ensures
        final(out)@.len() == old(out)@.len() + 28,
        spec_ascii(old(out)@) ==> spec_ascii(final(out)@),
        forall|i: int| 0 <= i < old(out)@.len() ==> final(out)@[i] == old(out)@[i],
        ({
            let text = spec_operand_text::<M>(cpu.bus@, cpu.pc, cpu.x, cpu.y, opcode);
            final(out)@ == old(out)@ + text + spec_spaces(28 - text.len())
        }),
{
    proof {
        reveal(spec_operand_text);
    }
    let start = out.len();
    match (opcode.mnemonic, opcode.addressing_mode) {
        (Mnemonic::JMP, AddressingMode::Absolute) | (Mnemonic::JSR, AddressingMode::Absolute) => {
            out.push(0x24);
            push_hex4(out, cpu.operand_16());
        },
        (_, AddressingMode::Absolute) => {
            out.push(0x24);
            push_hex4(out, cpu.operand_16());
            push_bytes(out, &[0x20, 0x3D, 0x20]);
            push_hex2(out, cpu.peek(decode_address(opcode.addressing_mode, cpu)));
        },
        (_, AddressingMode::AbsoluteX { .. }) => {
            out.push(0x24);
            push_hex4(out, cpu.operand_16());
            push_bytes(out, &[0x2C, 0x58, 0x20, 0x40, 0x20]);
            push_hex4(out, cpu.operand_16().wrapping_add(cpu.x as u16));
            push_bytes(out, &[0x20, 0x3D, 0x20]);
            push_hex2(out, cpu.peek(decode_address(opcode.addressing_mode, cpu)));
        },
        (_, _) => {
            // reachable only for AbsoluteY, by the dispatch above
            out.push(0x24);
            push_hex4(out, cpu.operand_16());
            push_bytes(out, &[0x2C, 0x59, 0x20, 0x40, 0x20]);
            push_hex4(out, cpu.operand_16().wrapping_add(cpu.y as u16));
            push_bytes(out, &[0x20, 0x3D, 0x20]);
            push_hex2(out, cpu.peek(decode_address(opcode.addressing_mode, cpu)));
        },
    }
    let written = out.len() - start;
    if written < 28 {
        push_spaces(out, 28 - written);
    }
    proof {
        let text = spec_operand_text::<M>(cpu.bus@, cpu.pc, cpu.x, cpu.y, opcode);
        assert(out@ =~= old(out)@ + text + spec_spaces(28 - text.len()));
    }
}

/// The operand column for the indirect modes.
fn push_operand_column_indirect<M: Memory>(out: &mut Vec<u8>, opcode: Opcode, cpu: &CPU<M>)
    requires
        cpu.inv(),
        opcode.addressing_mode is Indirect || opcode.addressing_mode is IndexedIndirect
            || opcode.addressing_mode is IndirectIndexed,
    ensures
        final(out)@.len() == old(out)@.len() + 28,
        spec_ascii(old(out)@) ==> spec_ascii(final(out)@),
        forall|i: int| 0 <= i < old(out)@.len() ==> final(out)@[i] == old(out)@[i],
        ({
            let text = spec_operand_text::<M>(cpu.bus@, cpu.pc, cpu.x, cpu.y, opcode);
            final(out)@ == old(out)@ + text + spec_spaces(28 - text.len())
        }),
{
    match opcode.addressing_mode {
        AddressingMode::Indirect => push_operand_column_ind(out, opcode, cpu),
        AddressingMode::IndexedIndirect => push_operand_column_ind_x(out, opcode, cpu),
        _ => push_operand_column_ind_y(out, opcode, cpu),
    }
}

/// The `($NNNN) = NNNN` column.
#[verifier::rlimit(100)]
fn push_operand_column_ind<M: Memory>(out: &mut Vec<u8>, opcode: Opcode, cpu: &CPU<M>)
    requires
        cpu.inv(),
        opcode.addressing_mode is Indirect,
    ensures
        final(out)@.len() == old(out)@.len() + 28,
        spec_ascii(old(out)@) ==> spec_ascii(final(out)@),
        forall|i: int| 0 <= i < old(out)@.len() ==> final(out)@[i] == old(out)@[i],
        ({
            let text = spec_operand_text::<M>(cpu.bus@, cpu.pc, cpu.x, cpu.y, opcode);
            final(out)@ == old(out)@ + text + spec_spaces(28 - text.len())
        }),
{
    proof {
        reveal(spec_operand_text);
    }
    let start = out.len();
    out.push(0x28);
    out.push(0x24);
    push_hex4(out, cpu.operand_16());
    push_bytes(out, &[0x29, 0x20, 0x3D, 0x20]);
    push_hex4(out, cpu.peek_on_indirect(cpu.operand_16()));
    let written = out.len() - start;
    if written < 28 {
        push_spaces(out, 28 - written);
    }
    proof {
        let text = spec_operand_text::<M>(cpu.bus@, cpu.pc, cpu.x, cpu.y, opcode);
        assert(out@ =~= old(out)@ + text + spec_spaces(28 - text.len()));
    }
}

/// The `($NN,X) @ NN = NNNN = VV` column.
#[verifier::rlimit(100)]
fn push_operand_column_ind_x<M: Memory>(out: &mut Vec<u8>, opcode: Opcode, cpu: &CPU<M>)
    requires
        cpu.inv(),
        opcode.addressing_mode is IndexedIndirect,
    ensures
        final(out)@.len() == old(out)@.len() + 28,
        spec_ascii(old(out)@) ==> spec_ascii(final(out)@),
        forall|i: int| 0 <= i < old(out)@.len() ==> final(out)@[i] == old(out)@[i],
        ({
            let text = spec_operand_text::<M>(cpu.bus@, cpu.pc, cpu.x, cpu.y, opcode);
            final(out)@ == old(out)@ + text + spec_spaces(28 - text.len())
        }),
{
    proof {
        reveal(spec_operand_text);
    }
    let start = out.len();
    let operand_x = cpu.operand_1().wrapping_add(cpu.x);
    let addr = cpu.peek_on_indirect((operand_x as u16) & 0xFF);
    out.push(0x28);
    out.push(0x24);
    push_hex2(out, cpu.operand_1());
    push_bytes(out, &[0x2C, 0x58, 0x29, 0x20, 0x40, 0x20]);
    push_hex2(out, operand_x);
    push_bytes(out, &[0x20, 0x3D, 0x20]);
    push_hex4(out, addr);
    push_bytes(out, &[0x20, 0x3D, 0x20]);
    push_hex2(out, cpu.peek(addr));
    let written = out.len() - start;
    if written < 28 {
        push_spaces(out, 28 - written);
    }
    proof {
        let text = spec_operand_text::<M>(cpu.bus@, cpu.pc, cpu.x, cpu.y, opcode);
        assert(out@ =~= old(out)@ + text + spec_spaces(28 - text.len()));
    }
}

/// The `($NN),Y = NNNN @ NNNN = VV` column.
#[verifier::rlimit(100)]
fn push_operand_column_ind_y<M: Memory>(out: &mut Vec<u8>, opcode: Opcode, cpu: &CPU<M>)
    requires
        cpu.inv(),
        opcode.addressing_mode is IndirectIndexed,
    ensures
        final(out)@.len() == old(out)@.len() + 28,
        spec_ascii(old(out)@) ==> spec_ascii(final(out)@),
        forall|i: int| 0 <= i < old(out)@.len() ==> final(out)@[i] == old(out)@[i],
        ({
            let text = spec_operand_text::<M>(cpu.bus@, cpu.pc, cpu.x, cpu.y, opcode);
            final(out)@ == old(out)@ + text + spec_spaces(28 - text.len())
        }),
{
    proof {
        reveal(spec_operand_text);
    }
    let start = out.len();
    let base_ptr = cpu.peek_on_indirect(cpu.operand_1() as u16);
    let addr = base_ptr.wrapping_add(cpu.y as u16);
    out.push(0x28);
    out.push(0x24);
    push_hex2(out, cpu.operand_1());
    push_bytes(out, &[0x29, 0x2C, 0x59, 0x20, 0x3D, 0x20]);
    push_hex4(out, base_ptr);
    push_bytes(out, &[0x20, 0x40, 0x20]);
    push_hex4(out, addr);
    push_bytes(out, &[0x20, 0x3D, 0x20]);
    push_hex2(out, cpu.peek(addr));
    let written = out.len() - start;
    if written < 28 {
        push_spaces(out, 28 - written);
    }
    proof {
        let text = spec_operand_text::<M>(cpu.bus@, cpu.pc, cpu.x, cpu.y, opcode);
        assert(out@ =~= old(out)@ + text + spec_spaces(28 - text.len()));
    }
}

/// Relies on `String::from_utf8`: a buffer of ASCII bytes is valid UTF-8
/// and decodes to the characters with the same code points.
#[verifier::external_body]
pub fn ascii_to_string(bytes: &Vec<u8>) -> (r: String)
    requires
        spec_ascii(bytes@),
    ensures
        r@ == bytes@.map_values(|b: u8| b as char),
{
    String::from_utf8(bytes.clone()).unwrap_or_default()
}

/// The rendered 33-byte disassembly column for the instruction at `pc`:
/// the undocumented-opcode star, the mnemonic, a space, and the operand
/// text padded to 28 bytes.
#[verifier::opaque]
pub open spec fn spec_assembly_column<M: Memory>(v: M::V, pc: u16, x: u8, y: u8) -> Seq<u8> {
    let op = M::v_read_result(v, pc);
    let opcode = spec_decode(op);
    let text = spec_operand_text::<M>(v, pc, x, y, opcode);
    seq![spec_star(op)] + spec_mnemonic_bytes(opcode.mnemonic) + seq![0x20u8] + text + spec_spaces(
        28 - text.len(),
    )
}

/// The machine-code column: the opcode byte and the operand bytes the
/// instruction length includes, space-padded to eight characters.
pub open spec fn spec_machine_code_column(operation: u8, op1: u8, op2: u8, len: u8) -> Seq<u8> {
    let head = spec_hex2(operation) + (if len >= 2 {
        seq![0x20u8] + spec_hex2(op1)
    } else {
        spec_spaces(3)
    });
    head + (if len >= 3 {
        seq![0x20u8] + spec_hex2(op2)
    } else {
        spec_spaces(3)
    })
}

/// The whole rendered nestest log line for a captured trace.
pub open spec fn spec_line_bytes(t: &Trace) -> Seq<u8> {
    spec_hex4(t.pc) + spec_spaces(2) + spec_machine_code_column(
        t.operation,
        t.operand_1,
        t.operand_2,
        spec_instruction_length(t.opcode.addressing_mode),
    ) + seq![0x20u8] + t.assembly_code@ + seq![0x41u8, 0x3Au8] + spec_hex2(t.a) + seq![
        0x20u8,
        0x58u8,
        0x3Au8,
    ] + spec_hex2(t.x) + seq![0x20u8, 0x59u8, 0x3Au8] + spec_hex2(t.y) + seq![
        0x20u8,
        0x50u8,
        0x3Au8,
    ] + spec_hex2(t.p) + seq![0x20u8, 0x53u8, 0x50u8, 0x3Au8] + spec_hex2(t.sp) + seq![
        0x20u8,
        0x43u8,
        0x59u8,
        0x43u8,
        0x3Au8,
    ] + spec_dec(t.cycle as int)
}

impl Trace {
    /// Capture the pre-instruction state: registers, the instruction bytes
    /// at PC, the decoded opcode and the rendered disassembly column.
    pub fn trace<M: Memory>(cpu: &CPU<M>) -> (r: Trace)
        requires
            cpu.inv(),
        ensures
            r.pc == cpu.pc,
            r.a == cpu.a && r.x == cpu.x && r.y == cpu.y,
            r.sp == cpu.s,
            r.p == cpu.p.0,
            r.cycle == cpu.cycles,
            r.operation == M::v_read_result(cpu.bus@, cpu.pc),
            r.operand_1 == M::v_read_result(cpu.bus@, cpu.pc.wrapping_add(1)),
            r.operand_2 == M::v_read_result(cpu.bus@, cpu.pc.wrapping_add(2)),
            r.opcode == spec_decode(M::v_read_result(cpu.bus@, cpu.pc)),
            r.assembly_code@ == spec_assembly_column::<M>(cpu.bus@, cpu.pc, cpu.x, cpu.y),
            r.assembly_code@.len() == 33,
            spec_ascii(r.assembly_code@),
    {
        proof {
            reveal(spec_assembly_column);
        }
        let pc = cpu.pc;
        let instruction = cpu.peek(pc);
        let opcode = decode(instruction);
        let mut column: Vec<u8> = Vec::new();
        if is_undocumented_opcode(instruction) {
            column.push(0x2A);
        } else {
            column.push(0x20);
        }
        push_mnemonic(&mut column, opcode.mnemonic);
        column.push(0x20);
        push_operand_column(&mut column, opcode, cpu);
        Trace {
            pc,
            operation: instruction,
            operand_1: cpu.operand_1(),
            operand_2: cpu.operand_2(),
            a: cpu.a,
            x: cpu.x,
            y: cpu.y,
            sp: cpu.s,
            p: cpu.p.bits(),
            cycle: cpu.cycles,
            opcode,
            assembly_code: column,
        }
    }

    /// The rendered nestest-convention log line, as raw ASCII bytes:
    /// `PPPP  OP O1 O2  *MNE operand...  A:AA X:XX Y:YY P:PP SP:SS CYC:n`.
    #[verifier::rlimit(60)]
    pub fn line_bytes(&self) -> (r: Vec<u8>)
        requires
            spec_ascii(self.assembly_code@),
        ensures
            r@ == spec_line_bytes(self),
            spec_ascii(r@),
            r@.len() >= 4,
            r@.subrange(0, 4) == spec_hex4(self.pc),
    {
        let mut out: Vec<u8> = Vec::new();
        push_hex4(&mut out, self.pc);
        push_spaces(&mut out, 2);
        let len = self.opcode.addressing_mode.instruction_length();
        push_hex2(&mut out, self.operation);
        if len >= 2 {
            out.push(0x20);
            push_hex2(&mut out, self.operand_1);
        } else {
            push_spaces(&mut out, 3);
        }
        if len >= 3 {
            out.push(0x20);
            push_hex2(&mut out, self.operand_2);
        } else {
            push_spaces(&mut out, 3);
        }
        out.push(0x20);
        push_bytes(&mut out, self.assembly_code.as_slice());
        push_bytes(&mut out, &[0x41, 0x3A]);
        push_hex2(&mut out, self.a);
        push_bytes(&mut out, &[0x20, 0x58, 0x3A]);
        push_hex2(&mut out, self.x);
        push_bytes(&mut out, &[0x20, 0x59, 0x3A]);
        push_hex2(&mut out, self.y);
        push_bytes(&mut out, &[0x20, 0x50, 0x3A]);
        push_hex2(&mut out, self.p);
        push_bytes(&mut out, &[0x20, 0x53, 0x50, 0x3A]);
        push_hex2(&mut out, self.sp);
        push_bytes(&mut out, &[0x20, 0x43, 0x59, 0x43, 0x3A]);
        push_dec(&mut out, self.cycle);
        proof {
            assert(out@ =~= spec_line_bytes(self));
            assert(out@.subrange(0, 4) =~= spec_hex4(self.pc));
        }
        out
    }

    /// The rendered log line as a `String`.
    pub fn line(&self) -> (r: String)
        requires
            spec_ascii(self.assembly_code@),
        ensures
            r@ == spec_line_bytes(self).map_values(|b: u8| b as char),
    {
        let bytes = self.line_bytes();
        ascii_to_string(&bytes)
    }
}

} // verus!

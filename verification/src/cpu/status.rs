//! The 6502 processor status register P.
//!
//! Bits, high to low: N V R B D I Z C.  R reads as 1 on this CPU; B exists
//! observably only in the copies of P pushed to the stack.

use vstd::prelude::*;

verus! {

/// Negative flag bit.
pub const FLAG_N: u8 = 0x80;

/// Overflow flag bit.
pub const FLAG_V: u8 = 0x40;

/// Reserved bit, pushed as 1 and forced to 1 by PLP/RTI.
pub const FLAG_R: u8 = 0x20;

/// Break bit, set only in copies of P pushed by PHP and BRK.
pub const FLAG_B: u8 = 0x10;

/// Decimal mode flag (no arithmetic effect on this variant).
pub const FLAG_D: u8 = 0x08;

/// Interrupt-disable flag.
pub const FLAG_I: u8 = 0x04;

/// Zero flag bit.
pub const FLAG_Z: u8 = 0x02;

/// Carry flag bit.
pub const FLAG_C: u8 = 0x01;

/// B and R bits as pushed by PHP and BRK (software interrupts).
pub const OPERATED_B: u8 = 0x30;

/// B and R bits as pushed by NMI and IRQ entry (hardware interrupts).
pub const INTERRUPTED_B: u8 = 0x20;

/// Status byte with `mask` set when `cond` holds, cleared otherwise.
pub open spec fn spec_update(p: u8, mask: u8, cond: bool) -> u8 {
    if cond {
        p | mask
    } else {
        p & !mask
    }
}

/// Status byte with Z and N refreshed from the 8-bit result `v`.
pub open spec fn spec_zn(p: u8, v: u8) -> u8 {
    spec_update(spec_update(p, FLAG_Z, v == 0), FLAG_N, v & 0x80 == 0x80)
}

/// The processor status register.
#[derive(Debug, Copy, Clone, PartialEq, Eq, Structural)]
pub struct CPUStatus(pub u8);

impl CPUStatus {
    pub fn new(bits: u8) -> (r: CPUStatus)
        ensures
            r.0 == bits,
    {
        CPUStatus(bits)
    }

    pub fn bits(&self) -> (r: u8)
        ensures
            r == self.0,
    {
        self.0
    }

    /// All bits of `mask` are set.
    pub fn is_set(&self, mask: u8) -> (r: bool)
        ensures
            r == (self.0 & mask == mask),
    {
        self.0 & mask == mask
    }

    pub fn set(&mut self, mask: u8)
        ensures
            final(self).0 == old(self).0 | mask,
    {
        self.0 = self.0 | mask;
    }

    pub fn unset(&mut self, mask: u8)
        ensures
            final(self).0 == old(self).0 & !mask,
    {
        self.0 = self.0 & !mask;
    }

    /// Set `mask` when `cond` holds, clear it otherwise.
    pub fn update(&mut self, mask: u8, cond: bool)
        ensures
            final(self).0 == spec_update(old(self).0, mask, cond),
    {
        if cond {
            self.set(mask);
        } else {
            self.unset(mask);
        }
    }

    /// Refresh Z and N from an 8-bit result.
    pub fn update_zn(&mut self, value: u8)
        ensures
            final(self).0 == spec_zn(old(self).0, value),
    {
        self.update(FLAG_Z, value == 0);
        self.update(FLAG_N, value & 0x80 == 0x80);
    }
}

/// The status byte PHP pushes for the live status `p`: `p` with B and R set.
pub open spec fn spec_php_pushed(p: u8) -> u8 {
    p | OPERATED_B
}

/// The live status PLP or RTI builds from a pulled byte: B cleared, R forced.
pub open spec fn spec_plp_restored(pulled: u8) -> u8 {
    (pulled & !FLAG_B) | FLAG_R
}

/// PHP followed by PLP preserves every P bit except B, which comes back
/// cleared, and R, which comes back set.
pub proof fn lemma_php_plp_preserves_flags(p: u8)
    ensures
        forall|mask: u8|
            (mask == FLAG_N || mask == FLAG_V || mask == FLAG_D || mask == FLAG_I || mask == FLAG_Z
                || mask == FLAG_C) ==> #[trigger] (spec_plp_restored(spec_php_pushed(p)) & mask)
                == p & mask,
        spec_plp_restored(spec_php_pushed(p)) & FLAG_B == 0,
        spec_plp_restored(spec_php_pushed(p)) & FLAG_R == FLAG_R,
{
    assert(forall|mask: u8|
        (mask == 0x80u8 || mask == 0x40u8 || mask == 0x08u8 || mask == 0x04u8 || mask == 0x02u8
            || mask == 0x01u8) ==> #[trigger] ((((p | 0x30u8) & !0x10u8) | 0x20u8) & mask) == p
            & mask) by (bit_vector);
    assert((((p | 0x30u8) & !0x10u8) | 0x20u8) & 0x10u8 == 0u8) by (bit_vector);
    assert((((p | 0x30u8) & !0x10u8) | 0x20u8) & 0x20u8 == 0x20u8) by (bit_vector);
}

} // verus!

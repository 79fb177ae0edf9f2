//! The prioritized pending-interrupt set shared between the scheduler and
//! the CPU: RESET before NMI before IRQ before BRK.

use vstd::prelude::*;

verus! {

/// RESET request bit.
pub const INT_RESET: u8 = 0x08;

/// NMI request bit.
pub const INT_NMI: u8 = 0x04;

/// IRQ request bit.
pub const INT_IRQ: u8 = 0x02;

/// BRK request bit.
pub const INT_BRK: u8 = 0x01;

/// The empty set: no interrupt pending.
pub const NO_INTERRUPT: u8 = 0x00;

/// The highest-priority bit of a pending set, RESET first.
pub open spec fn spec_highest(bits: u8) -> u8 {
    if bits & INT_RESET == INT_RESET {
        INT_RESET
    } else if bits & INT_NMI == INT_NMI {
        INT_NMI
    } else if bits & INT_IRQ == INT_IRQ {
        INT_IRQ
    } else if bits & INT_BRK == INT_BRK {
        INT_BRK
    } else {
        NO_INTERRUPT
    }
}

/// A bit-set of pending interrupts.
#[derive(Debug, Copy, Clone, PartialEq, Eq, Structural)]
pub struct Interrupt(pub u8);

impl Interrupt {
    pub fn new(bits: u8) -> (r: Interrupt)
        ensures
            r.0 == bits,
    {
        Interrupt(bits)
    }

    /// The highest-priority pending request, in RESET, NMI, IRQ, BRK order;
    /// the caller clears it after servicing.
    pub fn get(&self) -> (r: Interrupt)
        ensures
            r.0 == spec_highest(self.0),
    {
        if self.is_set(INT_RESET) {
            Interrupt(INT_RESET)
        } else if self.is_set(INT_NMI) {
            Interrupt(INT_NMI)
        } else if self.is_set(INT_IRQ) {
            Interrupt(INT_IRQ)
        } else if self.is_set(INT_BRK) {
            Interrupt(INT_BRK)
        } else {
            Interrupt(NO_INTERRUPT)
        }
    }

    pub fn is_set(&self, mask: u8) -> (r: bool)
        ensures
            r == (self.0 & mask == mask),
    {
        self.0 & mask == mask
    }

    pub fn set(&mut self, mask: u8)
        ensures
            final(self).0 == old(self).0 | mask,
    {
        self.0 = self.0 | mask;
    }

    pub fn unset(&mut self, mask: u8)
        ensures
            final(self).0 == old(self).0 & !mask,
    {
        self.0 = self.0 & !mask;
    }
}

} // verus!

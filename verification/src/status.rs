//! The processor status register `P`: a packed 8-bit flag byte.
//!
//! Bit layout (`NV-BDIZC`):
//!
//! ```text
//!  7 6 5 4 3 2 1 0
//!  N V _ B D I Z C
//!  | |   | | | | +--- Carry Flag
//!  | |   | | | +----- Zero Flag
//!  | |   | | +------- Interrupt Disable
//!  | |   | +--------- Decimal Mode (honored as a bit, not as behavior)
//!  | |   +----------- Break Command
//!  | +--------------- Overflow Flag
//!  +----------------- Negative Flag
//! ```

use vstd::prelude::*;

verus! {

/// The packed status byte. The view of a `Status` is the raw `u8`, so that
/// `PHP`/`PLP` round-trips can be stated bit-identically.
pub struct Status {
    pub status: u8,
}

impl View for Status {
    type V = u8;

    open spec fn view(&self) -> u8 {
        self.status
    }
}

impl Status {
    pub const CARRY: u8 = 0b0000_0001;

    pub const ZERO: u8 = 0b0000_0010;

    pub const INTERRUPT_DISABLE: u8 = 0b0000_0100;

    pub const DECIMAL_MODE: u8 = 0b0000_1000;

    pub const BREAK: u8 = 0b0001_0000;

    pub const BREAK2: u8 = 0b0010_0000;

    pub const OVERFLOW: u8 = 0b0100_0000;

    pub const NEGATIV: u8 = 0b1000_0000;

    /// Sets every flag bit present in `flag`, leaving the others unchanged.
    pub fn set(&mut self, flag: u8)
        ensures
            final(self)@ == (old(self)@ | flag),
    {
        self.status |= flag;
    }

    /// Clears every flag bit present in `flag`, leaving the others unchanged.
    pub fn reset(&mut self, flag: u8)
        ensures
            final(self)@ == (old(self)@ & !flag),
    {
        self.status &= !flag;
    }

    /// Returns the whole packed flag byte.
    pub fn get(&self) -> (r: u8)
        ensures
            r == self@,
    {
        self.status
    }

    /// Replaces the whole packed flag byte.
    pub fn insert(&mut self, data: u8)
        ensures
            final(self)@ == data,
    {
        self.status = data;
    }

    /// True when at least one of the bits in `flag` is set.
    pub fn contains(&self, flag: u8) -> (r: bool)
        ensures
            r == (self@ & flag != 0),
    {
        self.status & flag != 0
    }
}

} // verus!

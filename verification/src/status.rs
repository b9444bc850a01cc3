//! The processor-status register.
//!
//! `P` is kept as a single architectural byte; typed getters and setters
//! expose the four flags the supported opcodes manipulate.

use vstd::prelude::*;

use crate::model::flag_mask;
use crate::model::flag_of;
use crate::model::set_mask;

verus! {

/// The processor-status flags the supported instructions touch, by bit:
/// carry is bit 0, zero is bit 1, decimal mode is bit 3, negative is bit 7.
#[derive(Copy, Clone)]
pub enum Flags {
    /// Carry, bit 0.
    Carry,
    /// Zero, bit 1.
    Zero,
    /// Decimal mode, bit 3.
    DecimalMode,
    /// Negative, bit 7.
    Negative,
}

/// The processor-status register, an architectural byte.
pub struct ProcessorStatus {
    /// The raw status byte.
    pub flags: u8,
}

impl ProcessorStatus {
    /// Sets or clears the decimal-mode flag.
    pub fn set_decimal_mode_flag(&mut self, value_set: bool)
        ensures
            final(self).flags == set_mask(old(self).flags, flag_mask(Flags::DecimalMode), value_set),
    {
        self.set_flag(Flags::DecimalMode, value_set);
    }

    /// Sets or clears the zero flag.
    pub fn set_zero_flag(&mut self, value_set: bool)
        ensures
            final(self).flags == set_mask(old(self).flags, flag_mask(Flags::Zero), value_set),
    {
        self.set_flag(Flags::Zero, value_set);
    }

    /// Sets or clears the carry flag.
    pub fn set_carry_flag(&mut self, value_set: bool)
        ensures
            final(self).flags == set_mask(old(self).flags, flag_mask(Flags::Carry), value_set),
    {
        self.set_flag(Flags::Carry, value_set);
    }

    /// Whether the carry flag is set.
    pub fn get_carry_flag(&self) -> (r: bool)
        ensures
            r == flag_of(self.flags, Flags::Carry),
    {
        return self.get_flag(Flags::Carry);
    }

    /// Whether the zero flag is set.
    pub fn get_zero_flag(&self) -> (r: bool)
        ensures
            r == flag_of(self.flags, Flags::Zero),
    {
        return self.get_flag(Flags::Zero);
    }

    /// Sets or clears the negative flag.
    pub fn set_negative_flag(&mut self, value_set: bool)
        ensures
            final(self).flags == set_mask(old(self).flags, flag_mask(Flags::Negative), value_set),
    {
        self.set_flag(Flags::Negative, value_set);
    }

    /// Whether the negative flag is set.
    pub fn get_negative_flag(&self) -> (r: bool)
        ensures
            r == flag_of(self.flags, Flags::Negative),
    {
        return self.get_flag(Flags::Negative);
    }

    /// The bit mask of one flag.
    fn mask_of(flag: Flags) -> (r: u8)
        ensures
            r == flag_mask(flag),
    {
        match flag {
            Flags::Carry => 0x01,
            Flags::Zero => 0x02,
            Flags::DecimalMode => 0x08,
            Flags::Negative => 0x80,
        }
    }

    fn set_flag(&mut self, flag: Flags, value_set: bool)
        ensures
            final(self).flags == set_mask(old(self).flags, flag_mask(flag), value_set),
    {
        let mask = Self::mask_of(flag);
        if value_set {
            self.flags |= mask;
        } else {
            self.flags &= !mask;
        }
    }

    fn get_flag(&self, flag: Flags) -> (r: bool)
        ensures
            r == flag_of(self.flags, flag),
    {
        let mask = Self::mask_of(flag);
        return (self.flags & mask) > 0;
    }
}

} // verus!

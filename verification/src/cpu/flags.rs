//! The processor status register.

use vstd::prelude::*;

verus! {

/// The eight flags of the status register.
#[derive(Debug, Clone, Copy, PartialEq, Eq, Structural)]
pub struct StatusFlags {
    pub raw: u8,
}

impl Default for StatusFlags {
    /// The flags after a reset.
    fn default() -> (flags: Self)
        ensures
            flags.raw == 0x24,
    {
        StatusFlags { raw: 0x24 }
    }
}

impl StatusFlags {
    pub const CARRY: u8 = 0x01;

    pub const ZERO: u8 = 0x02;

    pub const INTERRUPT: u8 = 0x04;

    pub const DECIMAL: u8 = 0x08;

    pub const BREAK: u8 = 0x10;

    pub const UNUSED: u8 = 0x20;

    pub const OVERFLOW: u8 = 0x40;

    pub const NEGATIVE: u8 = 0x80;

    /// All the given flags are set.
    pub open spec fn has(self, flags: u8) -> bool {
        self.raw & flags == flags
    }

    /// The register with the given flags set or cleared.
    pub open spec fn with(self, flags: u8, on: bool) -> StatusFlags {
        StatusFlags { raw: if on { self.raw | flags } else { self.raw & !flags } }
    }

    /// The register with zero and negative as they are for a value.
    pub open spec fn judged(self, value: u8) -> StatusFlags {
        self.with(0x02, value == 0).with(0x80, value & 0x80 != 0)
    }

    /// The register with carry, and with zero and negative as they are for a value.
    pub open spec fn judged_with_carry(self, carry: bool, value: u8) -> StatusFlags {
        self.with(0x01, carry).judged(value)
    }

    /// Takes all eight bits as they are.
    pub fn from_bits_truncate(bits: u8) -> (flags: Self)
        ensures
            flags.raw == bits,
    {
        StatusFlags { raw: bits }
    }

    pub fn bits(&self) -> (bits: u8)
        ensures
            bits == self.raw,
    {
        self.raw
    }

    pub fn contains(&self, flags: u8) -> (yes: bool)
        ensures
            yes == self.has(flags),
    {
        self.raw & flags == flags
    }

    pub fn set(&mut self, flags: u8, on: bool)
        ensures
            *final(self) == old(self).with(flags, on),
    {
        if on {
            self.raw = self.raw | flags;
        } else {
            self.raw = self.raw & !flags;
        }
    }

    pub fn insert(&mut self, flags: u8)
        ensures
            *final(self) == old(self).with(flags, true),
    {
        self.set(flags, true);
    }

    pub fn remove(&mut self, flags: u8)
        ensures
            *final(self) == old(self).with(flags, false),
    {
        self.set(flags, false);
    }

    pub fn toggle(&mut self, flags: u8)
        ensures
            final(self).raw == old(self).raw ^ flags,
    {
        self.raw = self.raw ^ flags;
    }

    /// Sets zero and negative as they are for a value.
    pub fn set_zero_negative(&mut self, value: u8)
        ensures
            *final(self) == old(self).judged(value),
    {
        self.set(StatusFlags::ZERO, value == 0);
        self.set(StatusFlags::NEGATIVE, value & 0x80 != 0);
    }
}

} // verus!

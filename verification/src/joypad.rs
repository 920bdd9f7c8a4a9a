//! The standard controller: eight buttons behind a shift register.

use vstd::prelude::*;

use crate::fingerprint::{put_bool, put_u8, Fp};

verus! {

/// The buttons of one controller in one frame, one bit each.
#[derive(Debug, Clone, Copy, PartialEq, Eq, Hash, Structural)]
pub struct Buttons {
    pub raw: u8,
}

impl Default for Buttons {
    fn default() -> (buttons: Self)
        ensures
            buttons.raw == 0,
    {
        Buttons { raw: 0 }
    }
}

impl Buttons {
    pub fn a() -> (buttons: Buttons)
        ensures
            buttons.raw == 0x01,
    {
        Buttons { raw: 0x01 }
    }

    pub fn b() -> (buttons: Buttons)
        ensures
            buttons.raw == 0x02,
    {
        Buttons { raw: 0x02 }
    }

    pub fn select() -> (buttons: Buttons)
        ensures
            buttons.raw == 0x04,
    {
        Buttons { raw: 0x04 }
    }

    pub fn start() -> (buttons: Buttons)
        ensures
            buttons.raw == 0x08,
    {
        Buttons { raw: 0x08 }
    }

    pub fn up() -> (buttons: Buttons)
        ensures
            buttons.raw == 0x10,
    {
        Buttons { raw: 0x10 }
    }

    pub fn down() -> (buttons: Buttons)
        ensures
            buttons.raw == 0x20,
    {
        Buttons { raw: 0x20 }
    }

    pub fn left() -> (buttons: Buttons)
        ensures
            buttons.raw == 0x40,
    {
        Buttons { raw: 0x40 }
    }

    pub fn right() -> (buttons: Buttons)
        ensures
            buttons.raw == 0x80,
    {
        Buttons { raw: 0x80 }
    }

    /// No button.
    pub fn empty() -> (buttons: Buttons)
        ensures
            buttons.raw == 0,
    {
        Buttons { raw: 0 }
    }

    /// Every button.
    pub fn all() -> (buttons: Buttons)
        ensures
            buttons.raw == 0xFF,
    {
        Buttons { raw: 0xFF }
    }

    pub fn bits(&self) -> (bits: u8)
        ensures
            bits == self.raw,
    {
        self.raw
    }

    /// Every bit of a byte is a button, so nothing is cut off.
    pub fn from_bits_truncate(bits: u8) -> (buttons: Buttons)
        ensures
            buttons.raw == bits,
    {
        Buttons { raw: bits }
    }

    /// All of `other`'s buttons are among these.
    pub open spec fn has(self, other: Buttons) -> bool {
        self.raw & other.raw == other.raw
    }

    pub fn contains(&self, other: Buttons) -> (yes: bool)
        ensures
            yes == self.has(other),
    {
        self.raw & other.raw == other.raw
    }

    /// Some button is in both.
    pub fn intersects(&self, other: Buttons) -> (yes: bool)
        ensures
            yes == (self.raw & other.raw != 0),
    {
        self.raw & other.raw != 0
    }

    /// These buttons with `other`'s pressed or released.
    pub open spec fn with(self, other: Buttons, pressed: bool) -> Buttons {
        if pressed {
            Buttons { raw: self.raw | other.raw }
        } else {
            Buttons { raw: self.raw & !other.raw }
        }
    }

    pub fn set(&mut self, other: Buttons, pressed: bool)
        ensures
            *final(self) == old(self).with(other, pressed),
    {
        if pressed {
            self.raw = self.raw | other.raw;
        } else {
            self.raw = self.raw & !other.raw;
        }
    }
}

impl core::ops::BitOr for Buttons {
    type Output = Buttons;

    fn bitor(self, other: Buttons) -> (both: Buttons) {
        Buttons { raw: self.raw | other.raw }
    }
}

impl vstd::std_specs::ops::BitOrSpecImpl for Buttons {
    open spec fn obeys_bitor_spec() -> bool {
        true
    }

    open spec fn bitor_req(self, other: Buttons) -> bool {
        true
    }

    open spec fn bitor_spec(self, other: Buttons) -> Buttons {
        Buttons { raw: self.raw | other.raw }
    }
}

/// The registers of one controller.
///
/// While the strobe is high the shift register keeps reloading the buttons and every read gives
/// A. Once it is low, reads shift out A, B, Select, Start, Up, Down, Left, Right; ones follow.
#[derive(Debug, Clone, Copy, PartialEq, Eq, Structural)]
pub struct Joypad {
    pub state: Buttons,
    pub strobe: bool,
    pub shift: u8,
}

impl Default for Joypad {
    fn default() -> (pad: Self)
        ensures
            pad == Joypad::idle(),
    {
        Joypad { state: Buttons { raw: 0 }, strobe: false, shift: 0 }
    }
}

impl Joypad {
    /// A controller at power-on: nothing pressed.
    pub open spec fn idle() -> Joypad {
        Joypad { state: Buttons { raw: 0 }, strobe: false, shift: 0 }
    }

    /// What this controller adds to a fingerprint.
    #[verifier::opaque]
    pub open spec fn stamp(self, rest: Seq<u8>) -> Seq<u8> {
        put_u8(self.state.raw, put_bool(self.strobe, put_u8(self.shift, rest)))
    }

    pub fn fingerprint(&self, h: &mut Fp)
        ensures
            forall|rest: Seq<u8>| #[trigger] (final(h)@ + rest) == old(h)@ + self.stamp(rest),
    {
        reveal(Joypad::stamp);
        h.u8(self.state.bits());
        h.bool(self.strobe);
        h.u8(self.shift);
    }

    /// The controller after a write of the strobe bit: a strobe that is high, or falls, reloads.
    pub open spec fn strobed(self, strobe: bool) -> Joypad {
        Joypad {
            state: self.state,
            strobe,
            shift: if strobe || self.strobe { self.state.raw } else { self.shift },
        }
    }

    pub fn write_strobe(&mut self, strobe: bool)
        ensures
            *final(self) == old(self).strobed(strobe),
    {
        if strobe || self.strobe {
            self.shift = self.state.bits();
        }
        self.strobe = strobe;
    }

    /// The bit that a read gives.
    pub open spec fn bit(self) -> u8 {
        if self.strobe { self.state.raw & 1 } else { self.shift & 1 }
    }

    /// The controller after a read: a low strobe shifts, with a one coming in at the top.
    pub open spec fn shifted(self) -> Joypad {
        if self.strobe { self } else { Joypad { shift: (self.shift >> 1) | 0x80, ..self } }
    }

    /// Reads one bit, and shifts while the strobe is low.
    pub fn read(&mut self) -> (bit: u8)
        ensures
            bit == old(self).bit(),
            *final(self) == old(self).shifted(),
    {
        if self.strobe {
            return self.state.bits() & 1;
        }
        let bit: u8 = self.shift & 1;
        self.shift = (self.shift >> 1) | 0x80;
        bit
    }

    /// The bit that a read would give, without the shift.
    pub fn peek(&self) -> (bit: u8)
        ensures
            bit == self.bit(),
    {
        if self.strobe {
            self.state.bits() & 1
        } else {
            self.shift & 1
        }
    }

    /// The controller after `n` reads.
    pub open spec fn after_reads(self, n: nat) -> Joypad
        decreases n,
    {
        if n == 0 { self } else { self.after_reads((n - 1) as nat).shifted() }
    }
}

/// After the strobe was pulsed, the first eight reads give the buttons in bit order, A first, and
/// every later read gives 1.
pub proof fn law_reads_shift_out_the_buttons(pad: Joypad, n: nat)
    ensures
        pad.strobed(true).strobed(false).after_reads(n).bit() == if n < 8 {
            (pad.state.raw >> (n as u8)) & 1
        } else {
            1
        },
{
    lemma_register_after_reads(pad, n);
    let s = pad.state.raw;
    let k = if n < 8 { n as u8 } else { 8u8 };
    assert(k < 8 ==> ((s >> k) | !(0xFFu8 >> k)) & 1 == (s >> k) & 1) by (bit_vector);
    assert(0xFFu8 & 1 == 1) by (bit_vector);
}

/// A high strobe keeps giving A, however often it is read.
pub proof fn law_high_strobe_keeps_giving_a(pad: Joypad, n: nat)
    ensures
        pad.strobed(true).after_reads(n).bit() == pad.state.raw & 1,
        pad.strobed(true).after_reads(n) == pad.strobed(true),
    decreases n,
{
    if n > 0 {
        law_high_strobe_keeps_giving_a(pad, (n - 1) as nat);
    }
}

proof fn lemma_register_after_reads(pad: Joypad, n: nat)
    ensures
        ({
            let after = pad.strobed(true).strobed(false).after_reads(n);
            &&& !after.strobe
            &&& after.shift == if n < 8 {
                (pad.state.raw >> (n as u8)) | !(0xFFu8 >> (n as u8))
            } else {
                0xFFu8
            }
        }),
    decreases n,
{
    let s = pad.state.raw;
    assert((s >> 0u8) | !(0xFFu8 >> 0u8) == s) by (bit_vector);
    if n > 0 {
        let m = (n - 1) as nat;
        lemma_register_after_reads(pad, m);
        let k = if m < 8 { m as u8 } else { 8u8 };
        assert(k < 7 ==> ((((s >> k) | !(0xFFu8 >> k)) >> 1u8) | 0x80) == (s >> (k + 1) as u8) | !(
        0xFFu8 >> (k + 1) as u8)) by (bit_vector);
        assert(k == 7 ==> ((((s >> k) | !(0xFFu8 >> k)) >> 1u8) | 0x80) == 0xFFu8) by (bit_vector);
        assert((0xFFu8 >> 1u8) | 0x80 == 0xFFu8) by (bit_vector);
    }
}

} // verus!

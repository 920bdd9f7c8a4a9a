//! The five sound channels and the parts they share.
//!
//! Every timer counts CPU cycles: `cnt` is the number of cycles until the next step of its
//! sequencer, at which it is reloaded with the period.

use vstd::prelude::*;

use crate::cartridge::{CartModel, Cartridge};
use crate::bits::{lemma_mask_u8, lemma_shift_u8};
use crate::fingerprint::{put_bool, put_u16, put_u32, put_u8, Fp};

verus! {

/// How many cycles the CPU stands still for the fetch of one sample byte.
///
/// The hardware takes three or four, depending on what the CPU does in them; four is the common
/// case.
pub const DMC_STALL_CYCLES: u32 = 4;

/// The values that a length index (bits 3 to 7 of `$4003` and its like) loads.
pub const LENGTH_TABLE: [u8; 32] = [
    10, 254, 20, 2, 40, 4, 80, 6, 160, 8, 60, 10, 14, 12, 26, 14,
    12, 16, 24, 18, 48, 20, 96, 22, 192, 24, 72, 26, 16, 28, 32, 30,
];

/// The four pulse waves, by duty and sequencer position.
pub const DUTY_TABLE: [[u8; 8]; 4] = [
    [0, 1, 0, 0, 0, 0, 0, 0],
    [0, 1, 1, 0, 0, 0, 0, 0],
    [0, 1, 1, 1, 1, 0, 0, 0],
    [1, 0, 0, 1, 1, 1, 1, 1],
];

/// The noise periods (NTSC, in CPU cycles).
pub const NOISE_PERIOD_TABLE: [u16; 16] = [
    4, 8, 16, 32, 64, 96, 128, 160, 202, 254, 380, 508, 762, 1016, 2034, 4068,
];

/// The DMC's output rates (NTSC, in CPU cycles per output bit).
pub const DMC_RATE_TABLE: [u16; 16] = [
    428, 380, 340, 320, 286, 254, 226, 214, 190, 160, 142, 128, 106, 84, 72, 54,
];

proof fn lemma_channel_bits(x: u8, p: u16, s: u16, f: u16)
    by (bit_vector)
    ensures
        (p & 0x700) | (x as u16) <= 0x7FF,
        (p & 0xFF) | (((x as u16) & 7) << 8) <= 0x7FF,
        0xC000 <= 0xC000 | ((x as u16) << 6) <= 0xFFC0,
        ((x as u16) << 4) | 1 <= 0xFF1,
        s < 0x8000 && f <= 1 ==> (s >> 1) | (f << 14) < 0x8000,
        (s & 1) ^ ((s >> 6) & 1) <= 1,
        (s & 1) ^ ((s >> 1) & 1) <= 1,
{
}

proof fn lemma_shifted_period(p: u16, s: u8)
    by (bit_vector)
    requires
        s < 16,
    ensures
        p >> s <= p,
{
}

/// A length counter. Writes take effect at the end of the next cycle: a new halt flag is copied
/// from `new_halt`, and a new length waits in `reload`. A length is dropped when the frame
/// counter clocked the counter in that same cycle, which shows in `counter != previous`.
#[derive(Debug, Clone, Copy, PartialEq, Eq, Structural)]
pub struct LengthCounter {
    pub counter: u8,
    pub halt: bool,
    pub new_halt: bool,
    /// The length that waits to be loaded; 0 when none does.
    pub reload: u8,
    /// The counter at the time of the write.
    pub previous: u8,
}

impl Default for LengthCounter {
    fn default() -> (length: Self)
        ensures
            length == LengthCounter::stopped(),
    {
        LengthCounter { counter: 0, halt: false, new_halt: false, reload: 0, previous: 0 }
    }
}

impl LengthCounter {
    /// All zero.
    pub open spec fn stopped() -> LengthCounter {
        LengthCounter { counter: 0, halt: false, new_halt: false, reload: 0, previous: 0 }
    }

    #[verifier::opaque]
    pub open spec fn stamp(self, rest: Seq<u8>) -> Seq<u8> {
        put_u8(
            self.counter,
            put_bool(
                self.halt,
                put_bool(self.new_halt, put_u8(self.reload, put_u8(self.previous, rest))),
            ),
        )
    }

    pub fn fingerprint(&self, h: &mut Fp)
        ensures
            forall|rest: Seq<u8>| #[trigger] (final(h)@ + rest) == old(h)@ + self.stamp(rest),
    {
        reveal(LengthCounter::stamp);
        h.u8(self.counter);
        h.bool(self.halt);
        h.bool(self.new_halt);
        h.u8(self.reload);
        h.u8(self.previous);
    }

    pub open spec fn halt_written(self, halt: bool) -> LengthCounter {
        LengthCounter { new_halt: halt, ..self }
    }

    /// Writes the halt flag.
    pub fn write_halt(&mut self, halt: bool)
        ensures
            *final(self) == old(self).halt_written(halt),
    {
        self.new_halt = halt;
    }

    pub open spec fn loaded(self, index: u8, enabled: bool) -> LengthCounter {
        if enabled {
            LengthCounter {
                reload: LENGTH_TABLE@[(index & 31) as int],
                previous: self.counter,
                ..self
            }
        } else {
            self
        }
    }

    /// Writes a length by its index. A channel that is off ignores it.
    pub fn load(&mut self, index: u8, enabled: bool)
        ensures
            *final(self) == old(self).loaded(index, enabled),
    {
        broadcast use lemma_mask_u8;

        if enabled {
            self.reload = LENGTH_TABLE[(index & 31) as usize];
            self.previous = self.counter;
        }
    }

    pub open spec fn ticked(self) -> LengthCounter {
        if self.counter > 0 && !self.halt {
            LengthCounter { counter: (self.counter - 1) as u8, ..self }
        } else {
            self
        }
    }

    /// The half-frame clock.
    pub fn tick(&mut self)
        ensures
            *final(self) == old(self).ticked(),
    {
        if self.counter > 0 && !self.halt {
            self.counter = self.counter - 1;
        }
    }

    pub open spec fn settled(self) -> LengthCounter {
        LengthCounter {
            counter: if self.reload != 0 && self.counter == self.previous {
                self.reload
            } else {
                self.counter
            },
            halt: self.new_halt,
            reload: 0,
            ..self
        }
    }

    /// The end of a cycle: the writes that waited take effect.
    pub fn apply_pending(&mut self)
        ensures
            *final(self) == old(self).settled(),
    {
        if self.reload != 0 {
            if self.counter == self.previous {
                self.counter = self.reload;
            }
            self.reload = 0;
        }
        self.halt = self.new_halt;
    }

    pub open spec fn pending(self) -> bool {
        self.reload != 0 || self.halt != self.new_halt
    }

    pub fn has_pending(&self) -> (yes: bool)
        ensures
            yes == self.pending(),
    {
        self.reload != 0 || self.halt != self.new_halt
    }

    pub open spec fn cleared(self) -> LengthCounter {
        LengthCounter { counter: 0, ..self }
    }

    pub fn clear(&mut self)
        ensures
            *final(self) == old(self).cleared(),
    {
        self.counter = 0;
    }
}

/// The volume envelope that the pulse and noise channels have.
#[derive(Debug, Clone, Copy, PartialEq, Eq, Structural)]
pub struct Envelope {
    pub looping: bool,
    pub constant: bool,
    /// The volume, or the envelope's period.
    pub volume: u8,
    pub start: bool,
    pub divider: u8,
    pub decay: u8,
}

impl Default for Envelope {
    fn default() -> (envelope: Self)
        ensures
            envelope == Envelope::silent(),
    {
        Envelope {
            looping: false,
            constant: false,
            volume: 0,
            start: false,
            divider: 0,
            decay: 0,
        }
    }
}

impl Envelope {
    pub open spec fn silent() -> Envelope {
        Envelope {
            looping: false,
            constant: false,
            volume: 0,
            start: false,
            divider: 0,
            decay: 0,
        }
    }

    /// The fields are within the range of the hardware's registers.
    pub open spec fn valid(self) -> bool {
        self.volume <= 15 && self.decay <= 15 && self.divider <= 15
    }

    pub fn is_valid(&self) -> (yes: bool)
        ensures
            yes == self.valid(),
    {
        self.volume <= 15 && self.decay <= 15 && self.divider <= 15
    }

    #[verifier::opaque]
    pub open spec fn stamp(self, rest: Seq<u8>) -> Seq<u8> {
        put_bool(
            self.looping,
            put_bool(
                self.constant,
                put_u8(
                    self.volume,
                    put_bool(self.start, put_u8(self.divider, put_u8(self.decay, rest))),
                ),
            ),
        )
    }

    pub fn fingerprint(&self, h: &mut Fp)
        ensures
            forall|rest: Seq<u8>| #[trigger] (final(h)@ + rest) == old(h)@ + self.stamp(rest),
    {
        reveal(Envelope::stamp);
        h.bool(self.looping);
        h.bool(self.constant);
        h.u8(self.volume);
        h.bool(self.start);
        h.u8(self.divider);
        h.u8(self.decay);
    }

    pub open spec fn written(self, value: u8) -> Envelope {
        Envelope {
            looping: value & 0x20 != 0,
            constant: value & 0x10 != 0,
            volume: value & 15,
            ..self
        }
    }

    pub fn write(&mut self, value: u8)
        ensures
            *final(self) == old(self).written(value),
            old(self).valid() ==> final(self).valid(),
    {
        broadcast use lemma_mask_u8;

        self.looping = value & 0x20 != 0;
        self.constant = value & 0x10 != 0;
        self.volume = value & 15;
    }

    pub open spec fn restarted(self) -> Envelope {
        Envelope { start: true, ..self }
    }

    pub fn restart(&mut self)
        ensures
            *final(self) == old(self).restarted(),
            old(self).valid() ==> final(self).valid(),
    {
        self.start = true;
    }

    /// One quarter-frame clock: a restart loads the full volume; otherwise the divider counts
    /// down, and each time it runs out the volume drops by one, or wraps to full if looping.
    pub open spec fn ticked(self) -> Envelope {
        if self.start {
            Envelope { start: false, decay: 15, divider: self.volume, ..self }
        } else if self.divider == 0 {
            Envelope {
                divider: self.volume,
                decay: if self.decay > 0 {
                    (self.decay - 1) as u8
                } else if self.looping {
                    15
                } else {
                    0
                },
                ..self
            }
        } else {
            Envelope { divider: (self.divider - 1) as u8, ..self }
        }
    }

    pub fn tick(&mut self)
        ensures
            *final(self) == old(self).ticked(),
            old(self).valid() ==> final(self).valid(),
    {
        if self.start {
            self.start = false;
            self.decay = 15;
            self.divider = self.volume;
        } else if self.divider == 0 {
            self.divider = self.volume;
            if self.decay > 0 {
                self.decay = self.decay - 1;
            } else if self.looping {
                self.decay = 15;
            }
        } else {
            self.divider = self.divider - 1;
        }
    }

    pub open spec fn level(self) -> u8 {
        if self.constant { self.volume } else { self.decay }
    }

    pub fn output(&self) -> (level: u8)
        ensures
            level == self.level(),
    {
        if self.constant {
            self.volume
        } else {
            self.decay
        }
    }
}

/// A pulse channel. The sweep of pulse 1 negates in ones' complement, that of pulse 2 in two's.
#[derive(Debug, Clone, Copy, PartialEq, Eq, Structural)]
pub struct Pulse {
    pub ones_complement: bool,
    pub enabled: bool,
    pub duty: u8,
    pub envelope: Envelope,
    pub length: LengthCounter,
    pub sweep_enabled: bool,
    pub sweep_period: u8,
    pub sweep_negate: bool,
    pub sweep_shift: u8,
    pub sweep_reload: bool,
    pub sweep_divider: u8,
    /// The 11-bit period register, which the sweep rewrites.
    pub timer_period: u16,
    /// CPU cycles until the next step, at least 1.
    pub cnt: u32,
    /// The position in the wave, counting down.
    pub seq: u8,
}

impl Pulse {
    #[verifier::opaque]
    pub open spec fn stamp(self, rest: Seq<u8>) -> Seq<u8> {
        put_bool(
            self.ones_complement,
            put_bool(
                self.enabled,
                put_u8(
                    self.duty,
                    self.envelope.stamp(self.length.stamp(self.sweep_stamp(rest))),
                ),
            ),
        )
    }

    #[verifier::opaque]
    pub open spec fn sweep_stamp(self, rest: Seq<u8>) -> Seq<u8> {
        put_bool(
            self.sweep_enabled,
            put_u8(
                self.sweep_period,
                put_bool(
                    self.sweep_negate,
                    put_u8(
                        self.sweep_shift,
                        put_bool(
                            self.sweep_reload,
                            put_u8(
                                self.sweep_divider,
                                put_u16(self.timer_period, put_u32(self.cnt, put_u8(self.seq, rest))),
                            ),
                        ),
                    ),
                ),
            ),
        )
    }

    pub fn fingerprint(&self, h: &mut Fp)
        ensures
            forall|rest: Seq<u8>| #[trigger] (final(h)@ + rest) == old(h)@ + self.stamp(rest),
    {
        reveal(Pulse::stamp);
        reveal(Pulse::sweep_stamp);
        h.bool(self.ones_complement);
        h.bool(self.enabled);
        h.u8(self.duty);
        self.envelope.fingerprint(h);
        self.length.fingerprint(h);
        h.bool(self.sweep_enabled);
        h.u8(self.sweep_period);
        h.bool(self.sweep_negate);
        h.u8(self.sweep_shift);
        h.bool(self.sweep_reload);
        h.u8(self.sweep_divider);
        h.u16(self.timer_period);
        h.u32(self.cnt);
        h.u8(self.seq);
    }

    pub open spec fn powered_on(ones_complement: bool) -> Pulse {
        Pulse {
            ones_complement,
            enabled: false,
            duty: 0,
            envelope: Envelope::silent(),
            length: LengthCounter::stopped(),
            sweep_enabled: false,
            sweep_period: 0,
            sweep_negate: false,
            sweep_shift: 0,
            sweep_reload: false,
            sweep_divider: 0,
            timer_period: 0,
            cnt: 2,
            seq: 0,
        }
    }

    pub fn new(ones_complement: bool) -> (pulse: Self)
        ensures
            pulse == Pulse::powered_on(ones_complement),
            pulse.valid(),
    {
        Pulse {
            ones_complement,
            enabled: false,
            duty: 0,
            envelope: Envelope::default(),
            length: LengthCounter::default(),
            sweep_enabled: false,
            sweep_period: 0,
            sweep_negate: false,
            sweep_shift: 0,
            sweep_reload: false,
            sweep_divider: 0,
            timer_period: 0,
            cnt: 2,
            seq: 0,
        }
    }

    pub open spec fn valid(self) -> bool {
        &&& self.duty < 4
        &&& self.timer_period <= 0x7FF
        &&& self.seq < 8
        &&& self.sweep_period < 8
        &&& self.sweep_shift < 8
        &&& self.sweep_divider < 8
        &&& 1 <= self.cnt <= 0x1000
        &&& self.envelope.valid()
    }

    pub fn is_valid(&self) -> (yes: bool)
        ensures
            yes == self.valid(),
    {
        self.duty < 4 && self.timer_period <= 0x7FF && self.seq < 8 && self.sweep_period < 8
            && self.sweep_shift < 8 && self.sweep_divider < 8 && self.cnt >= 1 && self.cnt <= 0x1000
            && self.envelope.is_valid()
    }

    /// The channel after a write to its register `reg` modulo 4.
    pub open spec fn written(self, reg: u16, value: u8) -> Pulse {
        if reg & 3 == 0 {
            Pulse {
                duty: value >> 6,
                envelope: self.envelope.written(value),
                length: self.length.halt_written(value & 0x20 != 0),
                ..self
            }
        } else if reg & 3 == 1 {
            Pulse {
                sweep_enabled: value & 0x80 != 0,
                sweep_period: (value >> 4) & 7,
                sweep_negate: value & 0x08 != 0,
                sweep_shift: value & 7,
                sweep_reload: true,
                ..self
            }
        } else if reg & 3 == 2 {
            Pulse { timer_period: (self.timer_period & 0x700) | (value as u16), ..self }
        } else {
            Pulse {
                timer_period: (self.timer_period & 0xFF) | (((value as u16) & 7) << 8),
                length: self.length.loaded(value >> 3, self.enabled),
                seq: 0,
                envelope: self.envelope.restarted(),
                ..self
            }
        }
    }

    pub fn write_register(&mut self, reg: u16, value: u8)
        ensures
            *final(self) == old(self).written(reg, value),
            old(self).valid() ==> final(self).valid(),
    {
        broadcast use {lemma_mask_u8, lemma_shift_u8};

        proof {
            lemma_channel_bits(value, self.timer_period, 0, 0);
        }
        match reg & 3 {
            0 => {
                self.duty = value >> 6;
                self.envelope.write(value);
                self.length.write_halt(value & 0x20 != 0);
            },
            1 => {
                self.sweep_enabled = value & 0x80 != 0;
                self.sweep_period = (value >> 4) & 7;
                self.sweep_negate = value & 0x08 != 0;
                self.sweep_shift = value & 7;
                self.sweep_reload = true;
            },
            2 => {
                self.timer_period = (self.timer_period & 0x700) | (value as u16);
            },
            _ => {
                self.timer_period = (self.timer_period & 0xFF) | (((value as u16) & 7) << 8);
                self.length.load(value >> 3, self.enabled);
                self.seq = 0;
                self.envelope.restart();
            },
        }
    }

    pub open spec fn switched(self, enabled: bool) -> Pulse {
        Pulse {
            enabled,
            length: if enabled { self.length } else { self.length.cleared() },
            ..self
        }
    }

    pub fn set_enabled(&mut self, enabled: bool)
        ensures
            *final(self) == old(self).switched(enabled),
            old(self).valid() ==> final(self).valid(),
    {
        self.enabled = enabled;
        if !enabled {
            self.length.clear();
        }
    }

    /// Where the sweep would take the period: up or down by the period shifted right, never
    /// below zero.
    pub open spec fn target(self) -> int {
        let change = (self.timer_period >> self.sweep_shift) as int;
        if self.sweep_negate {
            let down = change + if self.ones_complement { 1int } else { 0 };
            if self.timer_period >= down { self.timer_period - down } else { 0 }
        } else {
            self.timer_period + change
        }
    }

    pub fn target_period(&self) -> (target: u32)
        requires
            self.sweep_shift < 16,
        ensures
            target == self.target(),
    {
        proof {
            lemma_shifted_period(self.timer_period, self.sweep_shift);
        }
        let change: u32 = (self.timer_period >> self.sweep_shift) as u32;
        let period: u32 = self.timer_period as u32;
        if self.sweep_negate {
            period.saturating_sub(change + if self.ones_complement { 1 } else { 0 })
        } else {
            period + change
        }
    }

    /// A period that is too short, or that the sweep would push out of range, is silent.
    pub open spec fn muted(self) -> bool {
        self.timer_period < 8 || self.target() > 0x7FF
    }

    pub fn sweep_muted(&self) -> (yes: bool)
        requires
            self.sweep_shift < 16,
        ensures
            yes == self.muted(),
    {
        self.timer_period < 8 || self.target_period() > 0x7FF
    }

    /// One half-frame clock of the sweep unit.
    pub open spec fn swept(self) -> Pulse {
        let adjust = self.sweep_divider == 0 && self.sweep_enabled && self.sweep_shift != 0
            && !self.muted();
        let reload = self.sweep_divider == 0 || self.sweep_reload;
        Pulse {
            timer_period: if adjust { self.target() as u16 } else { self.timer_period },
            sweep_divider: if reload {
                self.sweep_period
            } else {
                (self.sweep_divider - 1) as u8
            },
            sweep_reload: if reload { false } else { self.sweep_reload },
            ..self
        }
    }

    pub fn tick_sweep(&mut self)
        requires
            old(self).sweep_shift < 16,
        ensures
            *final(self) == old(self).swept(),
            old(self).valid() ==> final(self).valid(),
    {
        let adjust: bool = self.sweep_divider == 0 && self.sweep_enabled && self.sweep_shift != 0
            && !self.sweep_muted();
        if adjust {
            self.timer_period = self.target_period() as u16;
        }
        if self.sweep_divider == 0 || self.sweep_reload {
            self.sweep_divider = self.sweep_period;
            self.sweep_reload = false;
        } else {
            self.sweep_divider = self.sweep_divider - 1;
        }
    }

    pub open spec fn stepped(self) -> Pulse {
        Pulse {
            seq: self.seq.wrapping_sub(1) & 7,
            cnt: ((self.timer_period + 1) * 2) as u32,
            ..self
        }
    }

    /// The timer ran out: the sequencer moves on.
    pub fn step_sequencer(&mut self)
        ensures
            *final(self) == old(self).stepped(),
            old(self).valid() ==> final(self).valid(),
    {
        broadcast use lemma_mask_u8;

        self.seq = self.seq.wrapping_sub(1) & 7;
        self.cnt = (self.timer_period as u32 + 1) * 2;
    }

    /// A clock of the frame counter, of kind 1 or 2, or none: the
    /// envelope, and for kind 2 the length and the sweep.
    pub open spec fn clocked(self, kind: u8) -> Pulse {
        let quarter = Pulse { envelope: self.envelope.ticked(), ..self };
        if kind == 0 {
            self
        } else if kind == 2 {
            Pulse { length: quarter.length.ticked(), ..quarter }.swept()
        } else {
            quarter
        }
    }

    pub fn clock(&mut self, kind: u8)
        requires
            old(self).valid(),
        ensures
            *final(self) == old(self).clocked(kind),
            final(self).valid(),
            final(self).cnt == old(self).cnt,
    {
        if kind != 0 {
            self.envelope.tick();
            if kind == 2 {
                self.length.tick();
                self.tick_sweep();
            }
        }
    }

    /// The timer `d` cycles on.
    pub open spec fn timer_run(self, d: int) -> Pulse {
        if self.cnt == d { self.stepped() } else { Pulse { cnt: (self.cnt - d) as u32, ..self } }
    }

    fn run_timer(&mut self, d: u32)
        requires
            old(self).valid(),
            1 <= d <= old(self).cnt,
        ensures
            *final(self) == old(self).timer_run(d as int),
            final(self).valid(),
    {
        if self.cnt == d {
            self.step_sequencer();
        } else {
            self.cnt = self.cnt - d;
        }
    }

    /// The channel `d` cycles on, with the clocks that fall into the last of them: first the
    /// clocks, then the length settles, then the timer.
    #[verifier::opaque]
    pub open spec fn advanced(self, first: u8, second: u8, d: int) -> Pulse {
        let c = self.clocked(first).clocked(second);
        Pulse { length: c.length.settled(), ..c }.timer_run(d)
    }

    pub fn advance(&mut self, first: u8, second: u8, d: u32)
        requires
            old(self).valid(),
            1 <= d <= old(self).cnt,
        ensures
            *final(self) == old(self).advanced(first, second, d as int),
            final(self).valid(),
    {
        reveal(Pulse::advanced);
        self.clock(first);
        self.clock(second);
        self.length.apply_pending();
        self.run_timer(d);
    }

    /// Register writes and cycles keep the fields in the range of the hardware.
    pub proof fn lemma_stays_valid(self, reg: u16, value: u8, on: bool, first: u8, second: u8)
        requires
            self.valid(),
        ensures
            self.written(reg, value).valid(),
            self.switched(on).valid(),
            self.advanced(first, second, 1).valid(),
    {
        broadcast use {lemma_mask_u8, lemma_shift_u8};

        reveal(Pulse::advanced);
        lemma_channel_bits(value, self.timer_period, 0, 0);
        let a = self.clocked(first);
        assert(a.valid() && a.cnt == self.cnt);
        let b = a.clocked(second);
        assert(b.valid() && b.cnt == self.cnt);
    }

    /// Going on by `d` cycles is going on by all but one without a clock, and then by one.
    pub proof fn lemma_one_more_cycle(self, first: u8, second: u8, d: int)
        requires
            2 <= d <= self.cnt,
            !self.length.pending(),
        ensures
            self.advanced(0, 0, d - 1).advanced(first, second, 1) == self.advanced(
                first,
                second,
                d,
            ),
    {
        reveal(Pulse::advanced);
        let quiet = self.advanced(0, 0, d - 1);
        assert(quiet == Pulse { cnt: (self.cnt - (d - 1)) as u32, ..self });
        let q1 = quiet.clocked(first);
        let c1 = self.clocked(first);
        assert(q1 == Pulse { cnt: quiet.cnt, ..c1 });
        let q2 = q1.clocked(second);
        let c2 = c1.clocked(second);
        assert(q2 == Pulse { cnt: quiet.cnt, ..c2 });
    }

    pub open spec fn level(self) -> u8 {
        if self.length.counter == 0 || self.muted()
            || DUTY_TABLE@[(self.duty & 3) as int]@[(self.seq & 7) as int] == 0 {
            0
        } else {
            self.envelope.level()
        }
    }

    pub fn output(&self) -> (level: u8)
        requires
            self.sweep_shift < 16,
        ensures
            level == self.level(),
            self.valid() ==> level <= 15,
    {
        broadcast use lemma_mask_u8;

        let wave: [u8; 8] = DUTY_TABLE[(self.duty & 3) as usize];
        if self.length.counter == 0 || self.sweep_muted() || wave[(self.seq & 7) as usize] == 0 {
            0
        } else {
            self.envelope.output()
        }
    }
}

/// The triangle channel.
#[derive(Debug, Clone, Copy, PartialEq, Eq, Structural)]
pub struct Triangle {
    pub enabled: bool,
    /// `$4008` bit 7: control of the linear counter, and halt of the length counter.
    pub control: bool,
    pub linear_reload_value: u8,
    pub linear_counter: u8,
    pub linear_reload_flag: bool,
    pub length: LengthCounter,
    pub timer_period: u16,
    pub cnt: u32,
    /// The position in the 32-step wave.
    pub seq: u8,
}

impl Default for Triangle {
    fn default() -> (triangle: Self)
        ensures
            triangle == Triangle::powered_on(),
    {
        Triangle::new()
    }
}

impl Triangle {
    #[verifier::opaque]
    pub open spec fn stamp(self, rest: Seq<u8>) -> Seq<u8> {
        put_bool(
            self.enabled,
            put_bool(
                self.control,
                put_u8(
                    self.linear_reload_value,
                    put_u8(
                        self.linear_counter,
                        put_bool(
                            self.linear_reload_flag,
                            self.length.stamp(
                                put_u16(self.timer_period, put_u32(self.cnt, put_u8(self.seq, rest))),
                            ),
                        ),
                    ),
                ),
            ),
        )
    }

    pub fn fingerprint(&self, h: &mut Fp)
        ensures
            forall|rest: Seq<u8>| #[trigger] (final(h)@ + rest) == old(h)@ + self.stamp(rest),
    {
        reveal(Triangle::stamp);
        h.bool(self.enabled);
        h.bool(self.control);
        h.u8(self.linear_reload_value);
        h.u8(self.linear_counter);
        h.bool(self.linear_reload_flag);
        self.length.fingerprint(h);
        h.u16(self.timer_period);
        h.u32(self.cnt);
        h.u8(self.seq);
    }

    pub open spec fn powered_on() -> Triangle {
        Triangle {
            enabled: false,
            control: false,
            linear_reload_value: 0,
            linear_counter: 0,
            linear_reload_flag: false,
            length: LengthCounter::stopped(),
            timer_period: 0,
            cnt: 1,
            seq: 0,
        }
    }

    pub fn new() -> (triangle: Self)
        ensures
            triangle == Triangle::powered_on(),
            triangle.valid(),
    {
        Triangle {
            enabled: false,
            control: false,
            linear_reload_value: 0,
            linear_counter: 0,
            linear_reload_flag: false,
            length: LengthCounter::default(),
            timer_period: 0,
            cnt: 1,
            seq: 0,
        }
    }

    pub open spec fn valid(self) -> bool {
        &&& self.linear_reload_value < 128
        &&& self.linear_counter < 128
        &&& self.timer_period <= 0x7FF
        &&& self.seq < 32
        &&& 1 <= self.cnt <= 0x801
    }

    pub fn is_valid(&self) -> (yes: bool)
        ensures
            yes == self.valid(),
    {
        self.linear_reload_value < 128 && self.linear_counter < 128 && self.timer_period <= 0x7FF
            && self.seq < 32 && self.cnt >= 1 && self.cnt <= 0x801
    }

    pub open spec fn written(self, reg: u16, value: u8) -> Triangle {
        if reg & 3 == 0 {
            Triangle {
                control: value & 0x80 != 0,
                linear_reload_value: value & 127,
                length: self.length.halt_written(value & 0x80 != 0),
                ..self
            }
        } else if reg & 3 == 2 {
            Triangle { timer_period: (self.timer_period & 0x700) | (value as u16), ..self }
        } else if reg & 3 == 3 {
            Triangle {
                timer_period: (self.timer_period & 0xFF) | (((value as u16) & 7) << 8),
                length: self.length.loaded(value >> 3, self.enabled),
                linear_reload_flag: true,
                ..self
            }
        } else {
            self
        }
    }

    pub fn write_register(&mut self, reg: u16, value: u8)
        ensures
            *final(self) == old(self).written(reg, value),
            old(self).valid() ==> final(self).valid(),
    {
        broadcast use lemma_mask_u8;

        proof {
            lemma_channel_bits(value, self.timer_period, 0, 0);
        }
        match reg & 3 {
            0 => {
                self.control = value & 0x80 != 0;
                self.linear_reload_value = value & 127;
                self.length.write_halt(self.control);
            },
            2 => {
                self.timer_period = (self.timer_period & 0x700) | (value as u16);
            },
            3 => {
                self.timer_period = (self.timer_period & 0xFF) | (((value as u16) & 7) << 8);
                self.length.load(value >> 3, self.enabled);
                self.linear_reload_flag = true;
            },
            _ => {},
        }
    }

    pub open spec fn switched(self, enabled: bool) -> Triangle {
        Triangle {
            enabled,
            length: if enabled { self.length } else { self.length.cleared() },
            ..self
        }
    }

    pub fn set_enabled(&mut self, enabled: bool)
        ensures
            *final(self) == old(self).switched(enabled),
            old(self).valid() ==> final(self).valid(),
    {
        self.enabled = enabled;
        if !enabled {
            self.length.clear();
        }
    }

    /// One quarter-frame clock of the linear counter.
    pub open spec fn linear_ticked(self) -> Triangle {
        Triangle {
            linear_counter: if self.linear_reload_flag {
                self.linear_reload_value
            } else if self.linear_counter > 0 {
                (self.linear_counter - 1) as u8
            } else {
                0
            },
            linear_reload_flag: self.control && self.linear_reload_flag,
            ..self
        }
    }

    pub fn tick_linear(&mut self)
        ensures
            *final(self) == old(self).linear_ticked(),
            old(self).valid() ==> final(self).valid(),
    {
        if self.linear_reload_flag {
            self.linear_counter = self.linear_reload_value;
        } else if self.linear_counter > 0 {
            self.linear_counter = self.linear_counter - 1;
        }
        if !self.control {
            self.linear_reload_flag = false;
        }
    }

    /// The wave moves on only while both counters run.
    pub open spec fn stepped(self) -> Triangle {
        Triangle {
            seq: if self.length.counter > 0 && self.linear_counter > 0 {
                ((self.seq + 1) as u8) & 31
            } else {
                self.seq
            },
            cnt: (self.timer_period + 1) as u32,
            ..self
        }
    }

    pub fn step_sequencer(&mut self)
        requires
            old(self).seq < 255,
        ensures
            *final(self) == old(self).stepped(),
            old(self).valid() ==> final(self).valid(),
    {
        broadcast use lemma_mask_u8;

        if self.length.counter > 0 && self.linear_counter > 0 {
            self.seq = (self.seq + 1) & 31;
        }
        self.cnt = self.timer_period as u32 + 1;
    }

    /// A clock of the frame counter, of kind 1 or 2, or none: the
    /// linear counter, and for kind 2 the length.
    pub open spec fn clocked(self, kind: u8) -> Triangle {
        let quarter = self.linear_ticked();
        if kind == 0 {
            self
        } else if kind == 2 {
            Triangle { length: quarter.length.ticked(), ..quarter }
        } else {
            quarter
        }
    }

    pub fn clock(&mut self, kind: u8)
        requires
            old(self).valid(),
        ensures
            *final(self) == old(self).clocked(kind),
            final(self).valid(),
            final(self).cnt == old(self).cnt,
    {
        if kind != 0 {
            self.tick_linear();
            if kind == 2 {
                self.length.tick();
            }
        }
    }

    /// The timer `d` cycles on.
    pub open spec fn timer_run(self, d: int) -> Triangle {
        if self.cnt == d { self.stepped() } else { Triangle { cnt: (self.cnt - d) as u32, ..self } }
    }

    fn run_timer(&mut self, d: u32)
        requires
            old(self).valid(),
            1 <= d <= old(self).cnt,
        ensures
            *final(self) == old(self).timer_run(d as int),
            final(self).valid(),
    {
        if self.cnt == d {
            self.step_sequencer();
        } else {
            self.cnt = self.cnt - d;
        }
    }

    /// The channel `d` cycles on, with the clocks that fall into the last of them: first the
    /// clocks, then the length settles, then the timer.
    #[verifier::opaque]
    pub open spec fn advanced(self, first: u8, second: u8, d: int) -> Triangle {
        let c = self.clocked(first).clocked(second);
        Triangle { length: c.length.settled(), ..c }.timer_run(d)
    }

    pub fn advance(&mut self, first: u8, second: u8, d: u32)
        requires
            old(self).valid(),
            1 <= d <= old(self).cnt,
        ensures
            *final(self) == old(self).advanced(first, second, d as int),
            final(self).valid(),
    {
        reveal(Triangle::advanced);
        self.clock(first);
        self.clock(second);
        self.length.apply_pending();
        self.run_timer(d);
    }

    /// Register writes and cycles keep the fields in the range of the hardware.
    pub proof fn lemma_stays_valid(self, reg: u16, value: u8, on: bool, first: u8, second: u8)
        requires
            self.valid(),
        ensures
            self.written(reg, value).valid(),
            self.switched(on).valid(),
            self.advanced(first, second, 1).valid(),
    {
        broadcast use {lemma_mask_u8, lemma_shift_u8};

        reveal(Triangle::advanced);
        lemma_channel_bits(value, self.timer_period, 0, 0);
        let a = self.clocked(first);
        assert(a.valid() && a.cnt == self.cnt);
        let b = a.clocked(second);
        assert(b.valid() && b.cnt == self.cnt);
    }

    /// Going on by `d` cycles is going on by all but one without a clock, and then by one.
    pub proof fn lemma_one_more_cycle(self, first: u8, second: u8, d: int)
        requires
            2 <= d <= self.cnt,
            !self.length.pending(),
        ensures
            self.advanced(0, 0, d - 1).advanced(first, second, 1) == self.advanced(
                first,
                second,
                d,
            ),
    {
        reveal(Triangle::advanced);
        let quiet = self.advanced(0, 0, d - 1);
        assert(quiet == Triangle { cnt: (self.cnt - (d - 1)) as u32, ..self });
        let q1 = quiet.clocked(first);
        let c1 = self.clocked(first);
        assert(q1 == Triangle { cnt: quiet.cnt, ..c1 });
        let q2 = q1.clocked(second);
        let c2 = c1.clocked(second);
        assert(q2 == Triangle { cnt: quiet.cnt, ..c2 });
    }

    /// The wave falls from 15 to 0 and rises again. A running channel at an ultrasonic period
    /// gives the wave's mean instead.
    pub open spec fn level(self) -> u8 {
        if self.timer_period < 2 && self.length.counter > 0 && self.linear_counter > 0 {
            8
        } else if self.seq < 16 {
            (15 - self.seq) as u8
        } else {
            (self.seq - 16) as u8
        }
    }

    pub fn output(&self) -> (level: u8)
        ensures
            level == self.level(),
            self.valid() ==> level <= 15,
    {
        if self.timer_period < 2 && self.length.counter > 0 && self.linear_counter > 0 {
            return 8;
        }
        if self.seq < 16 {
            15 - self.seq
        } else {
            self.seq - 16
        }
    }
}

/// The noise channel.
#[derive(Debug, Clone, Copy, PartialEq, Eq, Structural)]
pub struct Noise {
    pub enabled: bool,
    pub envelope: Envelope,
    pub length: LengthCounter,
    /// `$400E` bit 7, short mode: the feedback taps bit 6 instead of bit 1.
    pub mode: bool,
    pub period_index: u8,
    pub cnt: u32,
    /// The 15-bit feedback shift register.
    pub shift: u16,
}

impl Default for Noise {
    fn default() -> (noise: Self)
        ensures
            noise == Noise::powered_on(),
    {
        Noise::new()
    }
}

impl Noise {
    #[verifier::opaque]
    pub open spec fn stamp(self, rest: Seq<u8>) -> Seq<u8> {
        put_bool(
            self.enabled,
            self.envelope.stamp(
                self.length.stamp(
                    put_bool(
                        self.mode,
                        put_u8(self.period_index, put_u32(self.cnt, put_u16(self.shift, rest))),
                    ),
                ),
            ),
        )
    }

    pub fn fingerprint(&self, h: &mut Fp)
        ensures
            forall|rest: Seq<u8>| #[trigger] (final(h)@ + rest) == old(h)@ + self.stamp(rest),
    {
        reveal(Noise::stamp);
        h.bool(self.enabled);
        self.envelope.fingerprint(h);
        self.length.fingerprint(h);
        h.bool(self.mode);
        h.u8(self.period_index);
        h.u32(self.cnt);
        h.u16(self.shift);
    }

    pub open spec fn powered_on() -> Noise {
        Noise {
            enabled: false,
            envelope: Envelope::silent(),
            length: LengthCounter::stopped(),
            mode: false,
            period_index: 0,
            cnt: 4,
            shift: 1,
        }
    }

    pub fn new() -> (noise: Self)
        ensures
            noise == Noise::powered_on(),
            noise.valid(),
    {
        Noise {
            enabled: false,
            envelope: Envelope::default(),
            length: LengthCounter::default(),
            mode: false,
            period_index: 0,
            cnt: NOISE_PERIOD_TABLE[0] as u32,
            shift: 1,
        }
    }

    pub open spec fn valid(self) -> bool {
        &&& self.period_index < 16
        &&& self.shift < 0x8000
        &&& 1 <= self.cnt <= 4068
        &&& self.envelope.valid()
    }

    pub fn is_valid(&self) -> (yes: bool)
        ensures
            yes == self.valid(),
    {
        self.period_index < 16 && self.shift < 0x8000 && self.cnt >= 1 && self.cnt <= 4068
            && self.envelope.is_valid()
    }

    pub open spec fn written(self, reg: u16, value: u8) -> Noise {
        if reg & 3 == 0 {
            Noise {
                envelope: self.envelope.written(value),
                length: self.length.halt_written(value & 0x20 != 0),
                ..self
            }
        } else if reg & 3 == 2 {
            Noise { mode: value & 0x80 != 0, period_index: value & 15, ..self }
        } else if reg & 3 == 3 {
            Noise {
                length: self.length.loaded(value >> 3, self.enabled),
                envelope: self.envelope.restarted(),
                ..self
            }
        } else {
            self
        }
    }

    pub fn write_register(&mut self, reg: u16, value: u8)
        ensures
            *final(self) == old(self).written(reg, value),
            old(self).valid() ==> final(self).valid(),
    {
        broadcast use lemma_mask_u8;

        match reg & 3 {
            0 => {
                self.envelope.write(value);
                self.length.write_halt(value & 0x20 != 0);
            },
            2 => {
                self.mode = value & 0x80 != 0;
                self.period_index = value & 15;
            },
            3 => {
                self.length.load(value >> 3, self.enabled);
                self.envelope.restart();
            },
            _ => {},
        }
    }

    pub open spec fn switched(self, enabled: bool) -> Noise {
        Noise {
            enabled,
            length: if enabled { self.length } else { self.length.cleared() },
            ..self
        }
    }

    pub fn set_enabled(&mut self, enabled: bool)
        ensures
            *final(self) == old(self).switched(enabled),
            old(self).valid() ==> final(self).valid(),
    {
        self.enabled = enabled;
        if !enabled {
            self.length.clear();
        }
    }

    /// The bit that comes in at the top: bit 0 against bit 1, or bit 6 in short mode.
    pub open spec fn feedback(self) -> u16 {
        if self.mode {
            (self.shift & 1) ^ ((self.shift >> 6) & 1)
        } else {
            (self.shift & 1) ^ ((self.shift >> 1) & 1)
        }
    }

    pub open spec fn stepped(self) -> Noise {
        Noise {
            shift: (self.shift >> 1) | (self.feedback() << 14),
            cnt: NOISE_PERIOD_TABLE@[(self.period_index & 15) as int] as u32,
            ..self
        }
    }

    pub fn step_shift_register(&mut self)
        ensures
            *final(self) == old(self).stepped(),
            old(self).valid() ==> final(self).valid(),
    {
        broadcast use lemma_mask_u8;

        let feedback: u16 = if self.mode {
            (self.shift & 1) ^ ((self.shift >> 6) & 1)
        } else {
            (self.shift & 1) ^ ((self.shift >> 1) & 1)
        };
        proof {
            lemma_channel_bits(0, 0, self.shift, feedback);
        }
        self.shift = (self.shift >> 1) | (feedback << 14);
        self.cnt = NOISE_PERIOD_TABLE[(self.period_index & 15) as usize] as u32;
    }

    /// A clock of the frame counter, of kind 1 or 2, or none: the
    /// envelope, and for kind 2 the length.
    pub open spec fn clocked(self, kind: u8) -> Noise {
        let quarter = Noise { envelope: self.envelope.ticked(), ..self };
        if kind == 0 {
            self
        } else if kind == 2 {
            Noise { length: quarter.length.ticked(), ..quarter }
        } else {
            quarter
        }
    }

    pub fn clock(&mut self, kind: u8)
        requires
            old(self).valid(),
        ensures
            *final(self) == old(self).clocked(kind),
            final(self).valid(),
            final(self).cnt == old(self).cnt,
    {
        if kind != 0 {
            self.envelope.tick();
            if kind == 2 {
                self.length.tick();
            }
        }
    }

    /// The timer `d` cycles on.
    pub open spec fn timer_run(self, d: int) -> Noise {
        if self.cnt == d { self.stepped() } else { Noise { cnt: (self.cnt - d) as u32, ..self } }
    }

    fn run_timer(&mut self, d: u32)
        requires
            old(self).valid(),
            1 <= d <= old(self).cnt,
        ensures
            *final(self) == old(self).timer_run(d as int),
            final(self).valid(),
    {
        if self.cnt == d {
            self.step_shift_register();
        } else {
            self.cnt = self.cnt - d;
        }
    }

    /// The channel `d` cycles on, with the clocks that fall into the last of them: first the
    /// clocks, then the length settles, then the timer.
    #[verifier::opaque]
    pub open spec fn advanced(self, first: u8, second: u8, d: int) -> Noise {
        let c = self.clocked(first).clocked(second);
        Noise { length: c.length.settled(), ..c }.timer_run(d)
    }

    pub fn advance(&mut self, first: u8, second: u8, d: u32)
        requires
            old(self).valid(),
            1 <= d <= old(self).cnt,
        ensures
            *final(self) == old(self).advanced(first, second, d as int),
            final(self).valid(),
    {
        reveal(Noise::advanced);
        self.clock(first);
        self.clock(second);
        self.length.apply_pending();
        self.run_timer(d);
    }

    /// Register writes and cycles keep the fields in the range of the hardware.
    pub proof fn lemma_stays_valid(self, reg: u16, value: u8, on: bool, first: u8, second: u8)
        requires
            self.valid(),
        ensures
            self.written(reg, value).valid(),
            self.switched(on).valid(),
            self.advanced(first, second, 1).valid(),
    {
        broadcast use {lemma_mask_u8, lemma_shift_u8};

        reveal(Noise::advanced);
        lemma_channel_bits(value, 0, self.shift, self.feedback());
        let a = self.clocked(first);
        assert(a.valid() && a.cnt == self.cnt);
        let b = a.clocked(second);
        assert(b.valid() && b.cnt == self.cnt);
    }

    /// Going on by `d` cycles is going on by all but one without a clock, and then by one.
    pub proof fn lemma_one_more_cycle(self, first: u8, second: u8, d: int)
        requires
            2 <= d <= self.cnt,
            !self.length.pending(),
        ensures
            self.advanced(0, 0, d - 1).advanced(first, second, 1) == self.advanced(
                first,
                second,
                d,
            ),
    {
        reveal(Noise::advanced);
        let quiet = self.advanced(0, 0, d - 1);
        assert(quiet == Noise { cnt: (self.cnt - (d - 1)) as u32, ..self });
        let q1 = quiet.clocked(first);
        let c1 = self.clocked(first);
        assert(q1 == Noise { cnt: quiet.cnt, ..c1 });
        let q2 = q1.clocked(second);
        let c2 = c1.clocked(second);
        assert(q2 == Noise { cnt: quiet.cnt, ..c2 });
    }

    pub open spec fn level(self) -> u8 {
        if self.shift & 1 != 0 || self.length.counter == 0 { 0 } else { self.envelope.level() }
    }

    pub fn output(&self) -> (level: u8)
        ensures
            level == self.level(),
            self.valid() ==> level <= 15,
    {
        if self.shift & 1 != 0 || self.length.counter == 0 {
            0
        } else {
            self.envelope.output()
        }
    }
}

/// The delta modulation channel. Its output unit takes one bit every `DMC_RATE_TABLE` cycles;
/// after eight bits it takes the next byte out of the one-byte buffer, and an emptied buffer asks
/// memory for another.
#[derive(Debug, Clone, Copy, PartialEq, Eq, Structural)]
pub struct Dmc {
    pub irq_enabled: bool,
    pub looping: bool,
    pub rate_index: u8,
    pub cnt: u32,
    /// Where the sample starts.
    pub sample_addr: u16,
    /// How many bytes it has.
    pub sample_length: u16,
    pub current_addr: u16,
    pub bytes_remaining: u16,
    pub read_buffer: u8,
    pub buffer_empty: bool,
    pub shift_register: u8,
    /// Bits that the output unit still has, 1 to 8.
    pub bits_remaining: u8,
    pub silence: bool,
    /// The 7-bit output.
    pub output_level: u8,
    pub irq_flag: bool,
    /// Cycles between enabling through `$4015` and the first fetch; 0 when none is due.
    pub start_delay: u8,
}

impl Default for Dmc {
    fn default() -> (dmc: Self)
        ensures
            dmc == Dmc::powered_on(),
    {
        Dmc::new()
    }
}

impl Dmc {
    #[verifier::opaque]
    pub open spec fn stamp(self, rest: Seq<u8>) -> Seq<u8> {
        put_bool(
            self.irq_enabled,
            put_bool(
                self.looping,
                put_u8(
                    self.rate_index,
                    put_u32(
                        self.cnt,
                        put_u16(
                            self.sample_addr,
                            put_u16(
                                self.sample_length,
                                put_u16(
                                    self.current_addr,
                                    put_u16(self.bytes_remaining, self.output_stamp(rest)),
                                ),
                            ),
                        ),
                    ),
                ),
            ),
        )
    }

    #[verifier::opaque]
    pub open spec fn output_stamp(self, rest: Seq<u8>) -> Seq<u8> {
        put_u8(
            self.read_buffer,
            put_bool(
                self.buffer_empty,
                put_u8(
                    self.shift_register,
                    put_u8(
                        self.bits_remaining,
                        put_bool(
                            self.silence,
                            put_u8(
                                self.output_level,
                                put_bool(self.irq_flag, put_u8(self.start_delay, rest)),
                            ),
                        ),
                    ),
                ),
            ),
        )
    }

    pub fn fingerprint(&self, h: &mut Fp)
        ensures
            forall|rest: Seq<u8>| #[trigger] (final(h)@ + rest) == old(h)@ + self.stamp(rest),
    {
        reveal(Dmc::stamp);
        reveal(Dmc::output_stamp);
        h.bool(self.irq_enabled);
        h.bool(self.looping);
        h.u8(self.rate_index);
        h.u32(self.cnt);
        h.u16(self.sample_addr);
        h.u16(self.sample_length);
        h.u16(self.current_addr);
        h.u16(self.bytes_remaining);
        h.u8(self.read_buffer);
        h.bool(self.buffer_empty);
        h.u8(self.shift_register);
        h.u8(self.bits_remaining);
        h.bool(self.silence);
        h.u8(self.output_level);
        h.bool(self.irq_flag);
        h.u8(self.start_delay);
    }

    pub open spec fn powered_on() -> Dmc {
        Dmc {
            irq_enabled: false,
            looping: false,
            rate_index: 0,
            cnt: 428,
            sample_addr: 0xC000,
            sample_length: 1,
            current_addr: 0xC000,
            bytes_remaining: 0,
            read_buffer: 0,
            buffer_empty: true,
            shift_register: 0,
            bits_remaining: 8,
            silence: true,
            output_level: 0,
            irq_flag: false,
            start_delay: 0,
        }
    }

    pub fn new() -> (dmc: Self)
        ensures
            dmc == Dmc::powered_on(),
            dmc.valid(),
    {
        Dmc {
            irq_enabled: false,
            looping: false,
            rate_index: 0,
            cnt: DMC_RATE_TABLE[0] as u32,
            sample_addr: 0xC000,
            sample_length: 1,
            current_addr: 0xC000,
            bytes_remaining: 0,
            read_buffer: 0,
            buffer_empty: true,
            shift_register: 0,
            bits_remaining: 8,
            silence: true,
            output_level: 0,
            irq_flag: false,
            start_delay: 0,
        }
    }

    pub open spec fn valid(self) -> bool {
        &&& self.rate_index < 16
        &&& 0xC000 <= self.sample_addr <= 0xFFC0
        &&& self.sample_length <= 0xFF1
        &&& self.current_addr >= 0x8000
        &&& self.bytes_remaining <= 0xFF1
        &&& 1 <= self.bits_remaining <= 8
        &&& self.output_level < 128
        &&& 1 <= self.cnt <= 428
        &&& self.start_delay <= 3
    }

    pub fn is_valid(&self) -> (yes: bool)
        ensures
            yes == self.valid(),
    {
        self.rate_index < 16 && self.sample_addr >= 0xC000 && self.sample_addr <= 0xFFC0
            && self.sample_length <= 0xFF1 && self.current_addr >= 0x8000
            && self.bytes_remaining <= 0xFF1 && self.bits_remaining >= 1 && self.bits_remaining <= 8
            && self.output_level < 128 && self.cnt >= 1 && self.cnt <= 428 && self.start_delay <= 3
    }

    pub open spec fn written(self, reg: u16, value: u8) -> Dmc {
        if reg & 3 == 0 {
            Dmc {
                irq_enabled: value & 0x80 != 0,
                looping: value & 0x40 != 0,
                rate_index: value & 15,
                irq_flag: value & 0x80 != 0 && self.irq_flag,
                ..self
            }
        } else if reg & 3 == 1 {
            Dmc { output_level: value & 127, ..self }
        } else if reg & 3 == 2 {
            Dmc { sample_addr: 0xC000 | ((value as u16) << 6), ..self }
        } else {
            Dmc { sample_length: ((value as u16) << 4) | 1, ..self }
        }
    }

    pub fn write_register(&mut self, reg: u16, value: u8)
        ensures
            *final(self) == old(self).written(reg, value),
            old(self).valid() ==> final(self).valid(),
    {
        broadcast use lemma_mask_u8;

        proof {
            lemma_channel_bits(value, 0, 0, 0);
        }
        match reg & 3 {
            0 => {
                self.irq_enabled = value & 0x80 != 0;
                self.looping = value & 0x40 != 0;
                self.rate_index = value & 15;
                if !self.irq_enabled {
                    self.irq_flag = false;
                }
            },
            1 => {
                self.output_level = value & 127;
            },
            2 => {
                self.sample_addr = 0xC000 | ((value as u16) << 6);
            },
            _ => {
                self.sample_length = ((value as u16) << 4) | 1;
            },
        }
    }

    pub open spec fn rewound(self) -> Dmc {
        Dmc { current_addr: self.sample_addr, bytes_remaining: self.sample_length, ..self }
    }

    fn restart_sample(&mut self)
        ensures
            *final(self) == old(self).rewound(),
    {
        self.current_addr = self.sample_addr;
        self.bytes_remaining = self.sample_length;
    }

    /// A write of `$4015` bit 4. An idle channel starts its sample over, with the first fetch
    /// after two cycles, or three where the write falls on an odd cycle.
    pub open spec fn switched(self, enabled: bool, odd_cycle: bool) -> Dmc {
        let moved = if !enabled {
            Dmc { bytes_remaining: 0, start_delay: 0, ..self }
        } else if self.bytes_remaining == 0 {
            Dmc { start_delay: if odd_cycle { 3 } else { 2 }, ..self.rewound() }
        } else {
            self
        };
        Dmc { irq_flag: false, ..moved }
    }

    pub fn set_enabled(&mut self, enabled: bool, odd_cycle: bool)
        ensures
            *final(self) == old(self).switched(enabled, odd_cycle),
            old(self).valid() ==> final(self).valid(),
    {
        if !enabled {
            self.bytes_remaining = 0;
            self.start_delay = 0;
        } else if self.bytes_remaining == 0 {
            self.restart_sample();
            self.start_delay = if odd_cycle { 3 } else { 2 };
        }
        self.irq_flag = false;
    }

    /// One bit moves the level by two, within 0 to 127.
    pub open spec fn bit_played(self) -> Dmc {
        if self.silence {
            self
        } else {
            Dmc {
                output_level: if self.shift_register & 1 != 0 {
                    if self.output_level <= 125 {
                        (self.output_level + 2) as u8
                    } else {
                        self.output_level
                    }
                } else if self.output_level >= 2 {
                    (self.output_level - 2) as u8
                } else {
                    self.output_level
                },
                shift_register: self.shift_register >> 1,
                ..self
            }
        }
    }

    /// One step of the output unit. After the last bit of a byte the buffer's byte is next, and
    /// an empty buffer means silence.
    pub open spec fn output_stepped(self) -> Dmc {
        let played = Dmc {
            cnt: DMC_RATE_TABLE@[(self.rate_index & 15) as int] as u32,
            ..self.bit_played()
        };
        if self.bits_remaining != 1 {
            Dmc { bits_remaining: (self.bits_remaining - 1) as u8, ..played }
        } else if self.buffer_empty {
            Dmc { bits_remaining: 8, silence: true, ..played }
        } else {
            Dmc {
                bits_remaining: 8,
                silence: false,
                shift_register: self.read_buffer,
                buffer_empty: true,
                ..played
            }
        }
    }

    /// The step emptied the buffer while the sample still has bytes.
    pub open spec fn output_wants_byte(self) -> bool {
        self.bits_remaining == 1 && !self.buffer_empty && self.bytes_remaining > 0
    }

    /// The timer ran out. Returns whether the buffer has to be filled again.
    pub fn step_output(&mut self) -> (wanted: bool)
        requires
            old(self).bits_remaining >= 1,
        ensures
            *final(self) == old(self).output_stepped(),
            wanted == old(self).output_wants_byte(),
            old(self).valid() ==> final(self).valid(),
    {
        broadcast use lemma_mask_u8;

        self.cnt = DMC_RATE_TABLE[(self.rate_index & 15) as usize] as u32;
        if !self.silence {
            if self.shift_register & 1 != 0 {
                if self.output_level <= 125 {
                    self.output_level = self.output_level + 2;
                }
            } else if self.output_level >= 2 {
                self.output_level = self.output_level - 2;
            }
            self.shift_register = self.shift_register >> 1;
        }
        self.bits_remaining = self.bits_remaining - 1;
        if self.bits_remaining == 0 {
            self.bits_remaining = 8;
            if self.buffer_empty {
                self.silence = true;
            } else {
                self.silence = false;
                self.shift_register = self.read_buffer;
                self.buffer_empty = true;
                return self.bytes_remaining > 0;
            }
        }
        false
    }

    pub open spec fn hungry(self) -> bool {
        self.buffer_empty && self.bytes_remaining > 0
    }

    /// Does the buffer want a byte from memory?
    pub fn wants_fetch(&self) -> (yes: bool)
        ensures
            yes == self.hungry(),
    {
        self.buffer_empty && self.bytes_remaining > 0
    }

    /// A byte came from memory: it fills the buffer, the address moves on (from `$FFFF` to
    /// `$8000`), and the last byte of a sample starts it over or raises the interrupt.
    pub open spec fn fed(self, value: u8) -> Dmc {
        if self.bytes_remaining == 0 {
            self
        } else {
            let moved = Dmc {
                read_buffer: value,
                buffer_empty: false,
                current_addr: if self.current_addr == 0xFFFF {
                    0x8000
                } else {
                    (self.current_addr + 1) as u16
                },
                bytes_remaining: (self.bytes_remaining - 1) as u16,
                ..self
            };
            if moved.bytes_remaining != 0 {
                moved
            } else if self.looping {
                moved.rewound()
            } else {
                Dmc { irq_flag: self.irq_enabled || self.irq_flag, ..moved }
            }
        }
    }

    pub fn finish_fetch(&mut self, value: u8)
        ensures
            *final(self) == old(self).fed(value),
            old(self).valid() ==> final(self).valid(),
    {
        if self.bytes_remaining == 0 {
            return;
        }
        self.read_buffer = value;
        self.buffer_empty = false;
        self.current_addr = if self.current_addr == 0xFFFF { 0x8000 } else { self.current_addr + 1 };
        self.bytes_remaining = self.bytes_remaining - 1;
        if self.bytes_remaining == 0 {
            if self.looping {
                self.restart_sample();
            } else if self.irq_enabled {
                self.irq_flag = true;
            }
        }
    }

    /// The channel and the stalled cycles after asking memory for a byte, if it wants one.
    pub open spec fn fetched(self, stall: u32, byte: u8) -> (Dmc, u32) {
        if self.hungry() {
            (self.fed(byte), if stall + 4 <= u32::MAX { (stall + 4) as u32 } else { u32::MAX })
        } else {
            (self, stall)
        }
    }

    /// The delay before the first fetch, `d` cycles on.
    pub open spec fn start_awaited(self, d: int) -> Dmc {
        if self.start_delay == 0 {
            self
        } else {
            Dmc { start_delay: (self.start_delay - d) as u8, ..self }
        }
    }

    /// The timer `d` cycles on.
    pub open spec fn timer_run(self, d: int) -> Dmc {
        if self.cnt == d {
            self.output_stepped()
        } else {
            Dmc { cnt: (self.cnt - d) as u32, ..self }
        }
    }

    /// The channel and the stalled cycles when the first fetch was due `d` cycles on.
    pub open spec fn started(self, stall: u32, d: int, cart: CartModel) -> (Dmc, u32) {
        let w = self.start_awaited(d);
        if self.start_delay != 0 && self.start_delay == d {
            w.fetched(stall, cart.prg_byte(w.current_addr))
        } else {
            (w, stall)
        }
    }

    /// The channel and the stalled cycles `d` cycles on: the first fetch, then the timer, and a
    /// fetch where its output emptied the buffer.
    #[verifier::opaque]
    pub open spec fn advanced(self, stall: u32, d: int, cart: CartModel) -> (Dmc, u32) {
        let (w, stalled) = self.started(stall, d, cart);
        let r = w.timer_run(d);
        if w.cnt == d && w.output_wants_byte() {
            r.fetched(stalled, cart.prg_byte(r.current_addr))
        } else {
            (r, stalled)
        }
    }

    /// Asks memory for a byte, if the channel wants one. Returns the stalled cycles.
    fn fetch(&mut self, stall: u32, cart: &Cartridge) -> (stalled: u32)
        ensures
            (*final(self), stalled) == old(self).fetched(
                stall,
                cart@.prg_byte(old(self).current_addr),
            ),
            old(self).valid() ==> final(self).valid(),
            final(self).cnt == old(self).cnt,
    {
        if !self.wants_fetch() {
            return stall;
        }
        let value: u8 = cart.read_prg(self.current_addr);
        self.finish_fetch(value);
        stall.saturating_add(DMC_STALL_CYCLES)
    }

    /// Goes `d` cycles on. Returns the stalled cycles.
    pub fn advance(&mut self, stall: u32, d: u32, cart: &Cartridge) -> (stalled: u32)
        requires
            old(self).valid(),
            1 <= d <= old(self).cnt,
            old(self).start_delay > 0 ==> d <= old(self).start_delay,
        ensures
            (*final(self), stalled) == old(self).advanced(stall, d as int, cart@),
            final(self).valid(),
    {
        reveal(Dmc::advanced);
        let mut stalled: u32 = stall;
        if self.start_delay > 0 {
            self.start_delay = self.start_delay - d as u8;
            if self.start_delay == 0 {
                stalled = self.fetch(stalled, cart);
            }
        }
        assert((*self, stalled) == old(self).started(stall, d as int, cart@));
        if self.cnt == d {
            if self.step_output() {
                stalled = self.fetch(stalled, cart);
            }
        } else {
            self.cnt = self.cnt - d;
        }
        stalled
    }

    /// Going on by `d` cycles is going on by all but one, in which nothing happens, and by one.
    pub proof fn lemma_one_more_cycle(self, stall: u32, d: int, cart: CartModel)
        requires
            2 <= d <= self.cnt,
            self.start_delay > 0 ==> d <= self.start_delay,
        ensures
            ({
                let q = self.advanced(stall, d - 1, cart);
                q.0.advanced(q.1, 1, cart) == self.advanced(stall, d, cart)
            }),
    {
        reveal(Dmc::advanced);
        let q = self.advanced(stall, d - 1, cart);
        assert(q.1 == stall);
        assert(q.0 == Dmc {
            cnt: (self.cnt - (d - 1)) as u32,
            start_delay: if self.start_delay == 0 {
                0
            } else {
                (self.start_delay - (d - 1)) as u8
            },
            ..self
        });
        let (w, stalled) = self.started(stall, d, cart);
        assert(q.0.started(stall, 1, cart) == (Dmc { cnt: q.0.cnt, ..w }, stalled));
    }

    /// Register writes keep the fields in the range of the hardware.
    pub proof fn lemma_stays_valid(self, reg: u16, value: u8, on: bool, odd: bool)
        requires
            self.valid(),
        ensures
            self.written(reg, value).valid(),
            self.switched(on, odd).valid(),
    {
        broadcast use lemma_mask_u8;

        lemma_channel_bits(value, 0, 0, 0);
    }

    /// How close the channel is to taking cycles from the CPU, in 432nds of a cycle: a byte lasts
    /// at least 432 cycles, and a start that waits costs one fetch more.
    pub open spec fn urge(self) -> int {
        let left = self.cnt + 54 * (self.bits_remaining - 1);
        (if left < 432 { 4 * (432 - left) } else { 0 }) + (if self.start_delay > 0 {
            1728int
        } else {
            0
        })
    }

    /// A cycle brings the channel no nearer to its next fetches than a 432nd of their cost.
    pub proof fn lemma_cycle_cost(self, stall: u32, cart: CartModel)
        requires
            self.valid(),
        ensures
            ({
                let r = self.advanced(stall, 1, cart);
                &&& r.0.valid()
                &&& 432 * r.1 + r.0.urge() <= 432 * stall + self.urge() + 4
            }),
    {
        broadcast use lemma_mask_u8;

        reveal(Dmc::advanced);
        let (w, stalled) = self.started(stall, 1, cart);
        assert(w.valid());
        assert(432 * stalled + w.urge() <= 432 * stall + self.urge());
        assert(w.cnt == self.cnt && w.bits_remaining == self.bits_remaining);
        let r = w.timer_run(1);
        assert(DMC_RATE_TABLE@[(w.rate_index & 15) as int] >= 54);
        assert(r.valid());
    }

    pub fn output(&self) -> (level: u8)
        ensures
            level == self.output_level,
    {
        self.output_level
    }
}

} // verus!

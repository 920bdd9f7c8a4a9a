//! The audio processing unit: five channels, the frame counter, and the status register.
//!
//! The unit belongs to the machine's state, not just to its output: the status register, the two
//! interrupts and the cycles that sample fetches take from the CPU all come from it.
//!
//! # Timing
//!
//! - An access to a register sees the unit after the cycle of the access: [`Apu::sync`] runs that
//!   cycle beforehand, and the next [`Apu::step`] leaves it out.
//! - Nothing but counters changes between two events, so [`Apu::step`] goes from event to event.
//!   What it does is what stepping cycle by cycle does.

use vstd::prelude::*;

use crate::cartridge::{CartModel, Cartridge};
use crate::debug::{ApuDebug, DmcDebug, NoiseDebug, PulseDebug, TriangleDebug};
use crate::fingerprint::{put_bool, put_u32, put_u64, put_u8, Fp};

pub mod channels;
pub mod output;

pub use channels::{
    Dmc, Envelope, LengthCounter, Noise, Pulse, Triangle, DMC_RATE_TABLE, DMC_STALL_CYCLES, LENGTH_TABLE,
    NOISE_PERIOD_TABLE,
};
pub use output::{
    at_most, endings, law_every_tick_is_sampled, left_after, lemma_settings_stay, lemma_time_adds_up,
    AudioModel, AudioOut, MixSegment, ALL_CHANNELS, CHANNEL_DMC, CHANNEL_NOISE, CHANNEL_PULSE1, CHANNEL_PULSE2,
    CHANNEL_TRIANGLE, CPU_CLOCK, DEFAULT_SAMPLE_RATE, MAX_BUFFERED_SAMPLES, MAX_SAMPLE_RATE,
    MIN_SAMPLE_RATE, TICKS_PER_CYCLE,
};

verus! {

/// The cycle, counted from the last restart, at which a step of the frame counter happens.
pub open spec fn step_cycle(mode5: bool, step: u8) -> u32 {
    if step == 0 {
        7457
    } else if step == 1 {
        14913
    } else if step == 2 {
        22371
    } else if step == 3 {
        if mode5 { 29829 } else { 29828 }
    } else if step == 4 {
        if mode5 { 37281 } else { 29829 }
    } else {
        if mode5 { 37282 } else { 29830 }
    }
}

/// What a step clocks: 1 the envelopes and the linear counter, 2 also lengths and sweeps, 0
/// nothing.
pub open spec fn step_kind(step: u8) -> u8 {
    if step == 0 || step == 2 {
        1
    } else if step == 1 || step == 4 {
        2
    } else {
        0
    }
}

fn cycle_of_step(mode5: bool, step: u8) -> (cycle: u32)
    ensures
        cycle == step_cycle(mode5, step),
{
    match step {
        0 => 7457,
        1 => 14913,
        2 => 22371,
        3 => if mode5 { 29829 } else { 29828 },
        4 => if mode5 { 37281 } else { 29829 },
        _ => if mode5 { 37282 } else { 29830 },
    }
}

fn kind_of_step(step: u8) -> (kind: u8)
    ensures
        kind == step_kind(step),
{
    match step {
        0 | 2 => 1,
        1 | 4 => 2,
        _ => 0,
    }
}

/// The frame counter (`$4017`).
#[derive(Debug, Clone, Copy, PartialEq, Eq, Structural)]
pub struct FrameCounter {
    /// Five steps instead of four.
    pub mode5: bool,
    pub inhibit_irq: bool,
    /// The step that comes next, 0 to 5.
    pub step: u8,
    /// Cycles since the last restart.
    pub cycle: u32,
    /// Cycles until a write takes effect; 0 when none waits.
    pub write_delay: u8,
    pub new_mode5: bool,
    /// Cycles for which no second clock is given after one.
    pub block: u8,
}

impl FrameCounter {
    pub open spec fn wf(self) -> bool {
        &&& self.step <= 5
        &&& self.cycle < step_cycle(self.mode5, self.step)
        &&& self.write_delay <= 4
        &&& self.block <= 2
    }

    /// The next step is reached `d` cycles on.
    pub open spec fn reaches(self, d: int) -> bool {
        self.cycle + d == step_cycle(self.mode5, self.step)
    }

    /// The pause after a clock, just before the last of `d` cycles.
    pub open spec fn pause(self, d: int) -> int {
        less(self.block as int, smaller(d - 1, 2))
    }

    /// What the step reached `d` cycles on clocks; nothing shortly after another clock.
    pub open spec fn step_clock(self, d: int) -> u8 {
        if self.reaches(d) && self.pause(d) == 0 { step_kind(self.step) } else { 0 }
    }

    /// The last three steps of the four-step mode raise the interrupt, unless it is inhibited.
    pub open spec fn raises_irq(self, d: int) -> bool {
        self.reaches(d) && !self.mode5 && self.step >= 3 && !self.inhibit_irq
    }

    /// The counter `d` cycles on, where its next step is reached in the last of them at the
    /// earliest.
    pub open spec fn stepped(self, d: int) -> FrameCounter {
        let wrap = self.reaches(d) && self.step == 5;
        FrameCounter {
            block: if self.step_clock(d) != 0 { 2 } else { self.pause(d) as u8 },
            cycle: if wrap { 0 } else { (self.cycle + d) as u32 },
            step: if wrap {
                0
            } else if self.reaches(d) {
                (self.step + 1) as u8
            } else {
                self.step
            },
            ..self
        }
    }

    /// What a `$4017` write that takes effect `d` cycles on clocks: the five-step mode clocks
    /// at once.
    pub open spec fn write_clock(self, d: int) -> u8 {
        if self.write_delay != 0 && self.write_delay == d && self.new_mode5 && self.block == 0 {
            2
        } else {
            0
        }
    }

    /// The counter after `d` cycles of such a write's delay; when it takes effect, the counter
    /// restarts.
    pub open spec fn restarted(self, d: int) -> FrameCounter {
        if self.write_delay == 0 {
            self
        } else if self.write_delay != d {
            FrameCounter { write_delay: (self.write_delay - d) as u8, ..self }
        } else {
            FrameCounter {
                write_delay: 0,
                mode5: self.new_mode5,
                step: 0,
                cycle: 0,
                block: if self.write_clock(d) != 0 { 2 } else { self.block },
                ..self
            }
        }
    }

    /// The clock that a write gives `d` cycles on, after the step of that cycle.
    pub open spec fn second_clock(self, d: int) -> u8 {
        self.stepped(d).write_clock(d)
    }

    /// The counter `d` cycles on.
    pub open spec fn advanced(self, d: int) -> FrameCounter {
        let f = self.stepped(d).restarted(d);
        FrameCounter { block: less(f.block as int, 1) as u8, ..f }
    }

    /// Goes `d` cycles on. Returns the clocks of the step and of a write, and whether the
    /// interrupt is raised.
    fn advance(&mut self, d: u32) -> (result: (u8, u8, bool))
        requires
            old(self).wf(),
            1 <= d,
            old(self).cycle + d <= step_cycle(old(self).mode5, old(self).step),
            old(self).write_delay > 0 ==> d <= old(self).write_delay,
        ensures
            *final(self) == old(self).advanced(d as int),
            final(self).wf(),
            result.0 == old(self).step_clock(d as int),
            result.1 == old(self).second_clock(d as int),
            result.2 == old(self).raises_irq(d as int),
    {
        let waited: u8 = if d - 1 <= 2 { (d - 1) as u8 } else { 2 };
        let mut first: u8 = 0;
        let mut second: u8 = 0;
        let mut irq: bool = false;
        self.block = self.block.saturating_sub(waited);
        self.cycle = self.cycle + d;
        if self.cycle == cycle_of_step(self.mode5, self.step) {
            irq = !self.mode5 && self.step >= 3 && !self.inhibit_irq;
            let kind: u8 = kind_of_step(self.step);
            if kind != 0 && self.block == 0 {
                first = kind;
                self.block = 2;
            }
            if self.step == 5 {
                self.step = 0;
                self.cycle = 0;
            } else {
                self.step = self.step + 1;
            }
        }
        if self.write_delay > 0 {
            self.write_delay = self.write_delay - d as u8;
            if self.write_delay == 0 {
                self.mode5 = self.new_mode5;
                self.step = 0;
                self.cycle = 0;
                if self.mode5 && self.block == 0 {
                    second = 2;
                    self.block = 2;
                }
            }
        }
        self.block = self.block.saturating_sub(1);
        (first, second, irq)
    }

    /// Going on by `d` cycles is going on by all but one, in which nothing happens, and by one.
    proof fn lemma_one_more_cycle(self, d: int)
        requires
            self.wf(),
            2 <= d,
            self.cycle + d <= step_cycle(self.mode5, self.step),
            self.write_delay > 0 ==> d <= self.write_delay,
        ensures
            self.advanced(d - 1).advanced(1) == self.advanced(d),
            self.step_clock(d - 1) == 0,
            self.second_clock(d - 1) == 0,
            !self.raises_irq(d - 1),
            self.advanced(d - 1).step_clock(1) == self.step_clock(d),
            self.advanced(d - 1).second_clock(1) == self.second_clock(d),
            self.advanced(d - 1).raises_irq(1) == self.raises_irq(d),
    {
        let q = self.advanced(d - 1);
        assert(q == FrameCounter {
            cycle: (self.cycle + (d - 1)) as u32,
            block: less(self.block as int, d - 1) as u8,
            write_delay: less(self.write_delay as int, d - 1) as u8,
            ..self
        });
        assert(q.pause(1) == self.pause(d));
        assert(q.stepped(1) == FrameCounter {
            write_delay: less(self.write_delay as int, d - 1) as u8,
            ..self.stepped(d)
        });
    }

    #[verifier::opaque]
    pub open spec fn stamp(self, rest: Seq<u8>) -> Seq<u8> {
        put_bool(
            self.mode5,
            put_bool(
                self.inhibit_irq,
                put_u8(
                    self.step,
                    put_u32(
                        self.cycle,
                        put_u8(self.write_delay, put_bool(self.new_mode5, put_u8(self.block, rest))),
                    ),
                ),
            ),
        )
    }

    pub fn fingerprint(&self, h: &mut Fp)
        ensures
            forall|rest: Seq<u8>| #[trigger] (final(h)@ + rest) == old(h)@ + self.stamp(rest),
    {
        reveal(FrameCounter::stamp);
        h.bool(self.mode5);
        h.bool(self.inhibit_irq);
        h.u8(self.step);
        h.u32(self.cycle);
        h.u8(self.write_delay);
        h.bool(self.new_mode5);
        h.u8(self.block);
    }
}

#[derive(Debug, Clone)]
pub struct Apu {
    pub pulse: [Pulse; 2],
    pub triangle: Triangle,
    pub noise: Noise,
    pub dmc: Dmc,
    pub frame: FrameCounter,
    /// `$4015` bit 6.
    pub frame_irq: bool,
    /// All cycles so far, those run ahead included. Their parity matters to some writes.
    pub cycles: u64,
    /// Cycles run ahead for a register access, 0 or 1.
    pub ahead: u8,
    /// Cycles that sample fetches took from the CPU and that the bus has not given back yet.
    pub dmc_stall: u32,
    pub out: AudioOut,
}

/// The unit without its output, as a value.
pub struct ApuCore {
    pub pulse0: Pulse,
    pub pulse1: Pulse,
    pub triangle: Triangle,
    pub noise: Noise,
    pub dmc: Dmc,
    pub frame: FrameCounter,
    pub frame_irq: bool,
    pub cycles: u64,
    pub ahead: u8,
    pub dmc_stall: u32,
}

/// The unit as a value: what it is, and what it recorded.
pub struct ApuModel {
    pub core: ApuCore,
    pub out: AudioModel,
}

impl View for Apu {
    type V = ApuModel;

    open spec fn view(&self) -> ApuModel {
        ApuModel {
            core: ApuCore {
                pulse0: self.pulse@[0],
                pulse1: self.pulse@[1],
                triangle: self.triangle,
                noise: self.noise,
                dmc: self.dmc,
                frame: self.frame,
                frame_irq: self.frame_irq,
                cycles: self.cycles,
                ahead: self.ahead,
                dmc_stall: self.dmc_stall,
            },
            out: self.out@,
        }
    }
}

pub open spec fn smaller(a: int, b: int) -> int {
    if a <= b { a } else { b }
}

/// `a` minus `b`, but not below zero.
pub open spec fn less(a: int, b: int) -> int {
    if a >= b { a - b } else { 0 }
}

impl ApuCore {
    pub open spec fn powered_on() -> ApuCore {
        ApuCore {
            pulse0: Pulse::powered_on(true),
            pulse1: Pulse::powered_on(false),
            triangle: Triangle::powered_on(),
            noise: Noise::powered_on(),
            dmc: Dmc::powered_on(),
            frame: FrameCounter {
                mode5: false,
                inhibit_irq: false,
                step: 0,
                cycle: 0,
                write_delay: 0,
                new_mode5: false,
                block: 0,
            },
            frame_irq: false,
            cycles: 0,
            ahead: 0,
            dmc_stall: 0,
        }
    }

    /// What every operation needs and keeps.
    pub open spec fn wf(self) -> bool {
        &&& self.pulse0.valid()
        &&& self.pulse1.valid()
        &&& self.triangle.valid()
        &&& self.noise.valid()
        &&& self.dmc.valid()
        &&& self.frame.wf()
        &&& self.ahead <= 1
    }

    /// The fields are in the range of the hardware. What a save state has to satisfy.
    pub open spec fn valid(self) -> bool {
        self.wf() && self.dmc_stall <= 64
    }

    /// A reset: every channel off, as by a write of 0 to `$4015`, and the frame counter restarted
    /// in the mode it was in, or in four steps at power-on. Timers and levels stay.
    pub open spec fn was_reset(self, soft: bool) -> ApuCore {
        let mode5 = soft && self.frame.mode5;
        ApuCore {
            pulse0: self.pulse0.switched(false),
            pulse1: self.pulse1.switched(false),
            triangle: self.triangle.switched(false),
            noise: self.noise.switched(false),
            dmc: self.dmc.switched(false, false),
            frame: FrameCounter {
                mode5,
                new_mode5: mode5,
                inhibit_irq: false,
                step: 0,
                cycle: 0,
                write_delay: 0,
                block: 0,
            },
            frame_irq: false,
            cycles: self.cycles,
            ahead: 0,
            dmc_stall: 0,
        }
    }

    /// The unit after a write to one of its registers.
    #[verifier::opaque]
    pub open spec fn register_written(self, addr: u16, value: u8) -> ApuCore {
        let odd = self.cycles % 2 == 1;
        if 0x4000 <= addr <= 0x4003 {
            ApuCore { pulse0: self.pulse0.written(addr, value), ..self }
        } else if 0x4004 <= addr <= 0x4007 {
            ApuCore { pulse1: self.pulse1.written(addr, value), ..self }
        } else if 0x4008 <= addr <= 0x400B {
            ApuCore { triangle: self.triangle.written(addr, value), ..self }
        } else if 0x400C <= addr <= 0x400F {
            ApuCore { noise: self.noise.written(addr, value), ..self }
        } else if 0x4010 <= addr <= 0x4013 {
            ApuCore { dmc: self.dmc.written(addr, value), ..self }
        } else if addr == 0x4015 {
            ApuCore {
                pulse0: self.pulse0.switched(value & 0x01 != 0),
                pulse1: self.pulse1.switched(value & 0x02 != 0),
                triangle: self.triangle.switched(value & 0x04 != 0),
                noise: self.noise.switched(value & 0x08 != 0),
                dmc: self.dmc.switched(value & 0x10 != 0, odd),
                ..self
            }
        } else if addr == 0x4017 {
            ApuCore {
                frame: FrameCounter {
                    new_mode5: value & 0x80 != 0,
                    write_delay: if odd { 4 } else { 3 },
                    inhibit_irq: value & 0x40 != 0,
                    ..self.frame
                },
                frame_irq: value & 0x40 == 0 && self.frame_irq,
                ..self
            }
        } else {
            self
        }
    }

    /// What `$4015` reads, bit 5 left out: which lengths run, whether the sample has bytes left,
    /// and the two interrupts.
    pub open spec fn status(self) -> u8 {
        ((if self.pulse0.length.counter > 0 { 0x01int } else { 0 })
            + (if self.pulse1.length.counter > 0 { 0x02int } else { 0 })
            + (if self.triangle.length.counter > 0 { 0x04int } else { 0 })
            + (if self.noise.length.counter > 0 { 0x08int } else { 0 })
            + (if self.dmc.bytes_remaining > 0 { 0x10int } else { 0 })
            + (if self.frame_irq { 0x40int } else { 0 })
            + (if self.dmc.irq_flag { 0x80int } else { 0 })) as u8
    }

    /// The level of the interrupt line.
    pub open spec fn interrupts(self) -> bool {
        self.frame_irq || self.dmc.irq_flag
    }

    /// The unit `d` cycles on, at most up to its next event.
    pub open spec fn advanced(self, d: int, cart: CartModel) -> ApuCore {
        let first = self.frame.step_clock(d);
        let second = self.frame.second_clock(d);
        ApuCore {
            pulse0: self.pulse0.advanced(first, second, d),
            pulse1: self.pulse1.advanced(first, second, d),
            triangle: self.triangle.advanced(first, second, d),
            noise: self.noise.advanced(first, second, d),
            dmc: self.dmc.advanced(self.dmc_stall, d, cart).0,
            frame: self.frame.advanced(d),
            frame_irq: self.frame_irq || self.frame.raises_irq(d),
            cycles: self.cycles.wrapping_add(d as u64),
            ahead: self.ahead,
            dmc_stall: self.dmc.advanced(self.dmc_stall, d, cart).1,
        }
    }

    /// The unit `n` cycles on, one by one.
    pub open spec fn after(self, n: int, cart: CartModel) -> ApuCore
        decreases n,
    {
        if n <= 0 { self } else { self.after(n - 1, cart).advanced(1, cart) }
    }

    /// A length write waits for the end of the cycle.
    pub open spec fn length_pending(self) -> bool {
        ||| self.pulse0.length.pending()
        ||| self.pulse1.length.pending()
        ||| self.triangle.length.pending()
        ||| self.noise.length.pending()
    }

    /// How many cycles there are to the next event, that of the event included.
    #[verifier::opaque]
    pub open spec fn next_event(self) -> int {
        let f = self.frame;
        let n0 = step_cycle(f.mode5, f.step) - f.cycle;
        let n1 = if f.write_delay > 0 { smaller(n0, f.write_delay as int) } else { n0 };
        let n2 = if self.dmc.start_delay > 0 {
            smaller(n1, self.dmc.start_delay as int)
        } else {
            n1
        };
        if self.length_pending() {
            1
        } else {
            smaller(
                smaller(
                    smaller(
                        smaller(smaller(n2, self.pulse0.cnt as int), self.pulse1.cnt as int),
                        self.triangle.cnt as int,
                    ),
                    self.noise.cnt as int,
                ),
                self.dmc.cnt as int,
            )
        }
    }

    #[verifier::opaque]
    pub open spec fn stamp(self, rest: Seq<u8>) -> Seq<u8> {
        self.pulse0.stamp(
            self.pulse1.stamp(
                self.triangle.stamp(
                    self.noise.stamp(
                        self.dmc.stamp(
                            self.frame.stamp(
                                put_bool(
                                    self.frame_irq,
                                    put_u64(
                                        self.cycles,
                                        put_u8(self.ahead, put_u32(self.dmc_stall, rest)),
                                    ),
                                ),
                            ),
                        ),
                    ),
                ),
            ),
        )
    }
}

impl ApuModel {
    pub open spec fn powered_on() -> ApuModel {
        ApuModel { core: ApuCore::powered_on(), out: AudioModel::fresh() }
    }

    pub open spec fn was_reset(self, soft: bool) -> ApuModel {
        ApuModel { core: self.core.was_reset(soft), out: self.out.silenced() }
    }

    /// The output with the present levels held for `d` cycles.
    pub open spec fn heard(self, d: int) -> AudioModel {
        self.out.recorded(
            self.out.pulse_position(self.core.pulse0.level(), self.core.pulse1.level()),
            self.out.tnd_position(
                self.core.triangle.level(),
                self.core.noise.level(),
                self.core.dmc.output_level,
            ),
            d,
        )
    }

    /// What is recorded in `n` cycles, from event to event.
    pub open spec fn recording(self, n: int, cart: CartModel) -> AudioModel
        decreases n,
    {
        let d = smaller(self.core.next_event(), n);
        if n <= 0 || d <= 0 {
            self.out
        } else {
            ApuModel { core: self.core.after(d, cart), out: self.heard(d) }.recording(n - d, cart)
        }
    }

    /// The unit after running `n` cycles.
    pub open spec fn ran(self, n: int, cart: CartModel) -> ApuModel {
        ApuModel { core: self.core.after(n, cart), out: self.recording(n, cart) }
    }

    /// The unit before a register access.
    pub open spec fn synced(self, cart: CartModel) -> ApuModel {
        if self.core.ahead == 0 {
            let r = self.ran(1, cart);
            ApuModel { core: ApuCore { ahead: 1, ..r.core }, ..r }
        } else {
            self
        }
    }

    /// The unit after `n` CPU cycles, of which it may have run the first already.
    pub open spec fn stepped(self, n: int, cart: CartModel) -> ApuModel {
        let skipped = smaller(self.core.ahead as int, n);
        ApuModel {
            core: ApuCore { ahead: (self.core.ahead - skipped) as u8, ..self.core },
            ..self
        }.ran(n - skipped, cart)
    }
}

impl Default for Apu {
    fn default() -> (apu: Self)
        ensures
            apu@ == ApuModel::powered_on(),
            apu@.core.valid(),
    {
        Apu::new()
    }
}

impl Apu {
    /// Power-on.
    pub fn new() -> (apu: Self)
        ensures
            apu@ == ApuModel::powered_on(),
            apu@.core.valid(),
    {
        let mut apu: Apu = Apu {
            pulse: [Pulse::new(true), Pulse::new(false)],
            triangle: Triangle::new(),
            noise: Noise::new(),
            dmc: Dmc::new(),
            frame: FrameCounter {
                mode5: false,
                inhibit_irq: false,
                step: 0,
                cycle: 0,
                write_delay: 0,
                new_mode5: false,
                block: 0,
            },
            frame_irq: false,
            cycles: 0,
            ahead: 0,
            dmc_stall: 0,
            out: AudioOut::default(),
        };
        apu.reset(false);
        apu
    }

    pub fn fingerprint(&self, h: &mut Fp)
        ensures
            forall|rest: Seq<u8>| #[trigger] (final(h)@ + rest) == old(h)@ + self@.core.stamp(rest),
    {
        reveal(ApuCore::stamp);
        self.pulse[0].fingerprint(h);
        self.pulse[1].fingerprint(h);
        self.triangle.fingerprint(h);
        self.noise.fingerprint(h);
        self.dmc.fingerprint(h);
        self.frame.fingerprint(h);
        h.bool(self.frame_irq);
        h.u64(self.cycles);
        h.u8(self.ahead);
        h.u32(self.dmc_stall);
    }

    /// A reset, by the button (`soft`) or by switching on.
    pub fn reset(&mut self, soft: bool)
        ensures
            final(self)@ == old(self)@.was_reset(soft),
            old(self)@.core.wf() ==> final(self)@.core.valid(),
    {
        self.pulse[0].set_enabled(false);
        self.pulse[1].set_enabled(false);
        self.triangle.set_enabled(false);
        self.noise.set_enabled(false);
        self.dmc.set_enabled(false, false);
        self.frame_irq = false;
        self.frame.mode5 = soft && self.frame.mode5;
        self.frame.new_mode5 = self.frame.mode5;
        self.frame.inhibit_irq = false;
        self.frame.step = 0;
        self.frame.cycle = 0;
        self.frame.write_delay = 0;
        self.frame.block = 0;
        self.ahead = 0;
        self.dmc_stall = 0;
        self.out.reset_signal();
    }

    pub fn is_structurally_valid(&self) -> (yes: bool)
        ensures
            yes == self@.core.valid(),
    {
        self.pulse[0].is_valid() && self.pulse[1].is_valid() && self.triangle.is_valid()
            && self.noise.is_valid() && self.dmc.is_valid() && self.frame.step <= 5
            && self.frame.cycle < cycle_of_step(self.frame.mode5, self.frame.step)
            && self.frame.write_delay <= 4 && self.frame.block <= 2 && self.ahead <= 1
            && self.dmc_stall <= 64
    }

    /// Switches recording. Switching off drops what waits.
    pub fn set_output_enabled(&mut self, enabled: bool)
        ensures
            final(self)@ == (ApuModel { out: old(self)@.out.switched(enabled), ..old(self)@ }),
    {
        self.out.set_enabled(enabled);
    }

    pub fn output_enabled(&self) -> (enabled: bool)
        ensures
            enabled == self@.out.enabled,
    {
        self.out.enabled()
    }

    /// Chooses the channels that are heard. Only the recording depends on it.
    pub fn set_channel_mask(&mut self, mask: u8)
        ensures
            final(self)@ == (ApuModel {
                out: AudioModel { channel_mask: mask & 0x1F, ..old(self)@.out },
                ..old(self)@
            }),
    {
        self.out.set_channel_mask(mask);
    }

    pub fn channel_mask(&self) -> (mask: u8)
        ensures
            mask == self@.out.channel_mask,
    {
        self.out.channel_mask()
    }

    /// Sets the sample rate, in microhertz. Only the recording depends on it.
    pub fn set_sample_rate(&mut self, rate: u64)
        ensures
            final(self)@ == (ApuModel { out: old(self)@.out.retuned(rate), ..old(self)@ }),
    {
        self.out.set_sample_rate(rate);
    }

    pub fn sample_rate(&self) -> (rate: u64)
        ensures
            rate == self@.out.rate,
    {
        self.out.sample_rate()
    }

    /// Moves the samples that wait to the end of `out`.
    pub fn take_samples(&mut self, out: &mut Vec<MixSegment>)
        ensures
            final(out)@ == old(out)@ + old(self)@.out.waiting(),
            final(self)@ == (ApuModel { out: old(self)@.out.drained(), ..old(self)@ }),
    {
        self.out.take_samples(out);
    }

    /// How many samples wait.
    pub fn buffered_samples(&self) -> (count: usize)
        ensures
            count == self@.out.samples,
    {
        self.out.buffered()
    }

    /// Takes over the output settings of another unit, with nothing recorded.
    pub fn adopt_output_settings(&mut self, previous: &Apu)
        ensures
            final(self)@ == (ApuModel { out: previous@.out.silenced(), ..old(self)@ }),
    {
        self.out.adopt_settings(&previous.out);
    }

    /// Runs the cycle of a register access beforehand.
    pub fn sync(&mut self, cart: &Cartridge)
        requires
            old(self)@.core.wf(),
        ensures
            final(self)@ == old(self)@.synced(cart@),
            final(self)@.core.wf(),
    {
        if self.ahead == 0 {
            self.run(1, cart);
            self.ahead = 1;
        }
    }

    /// Writes `$4000-$4013`, `$4015` or `$4017`, after [`Apu::sync`].
    pub fn write_register(&mut self, addr: u16, value: u8)
        requires
            old(self)@.core.wf(),
        ensures
            final(self)@ == (ApuModel {
                core: old(self)@.core.register_written(addr, value),
                ..old(self)@
            }),
            final(self)@.core.wf(),
            final(self)@.core.dmc_stall == old(self)@.core.dmc_stall,
            final(self)@.core.ahead == old(self)@.core.ahead,
    {
        reveal(ApuCore::register_written);
        if 0x4000 <= addr && addr <= 0x4003 {
            self.pulse[0].write_register(addr, value);
        } else if 0x4004 <= addr && addr <= 0x4007 {
            self.pulse[1].write_register(addr, value);
        } else if 0x4008 <= addr && addr <= 0x400B {
            self.triangle.write_register(addr, value);
        } else if 0x400C <= addr && addr <= 0x400F {
            self.noise.write_register(addr, value);
        } else if 0x4010 <= addr && addr <= 0x4013 {
            self.dmc.write_register(addr, value);
        } else if addr == 0x4015 {
            self.pulse[0].set_enabled(value & 0x01 != 0);
            self.pulse[1].set_enabled(value & 0x02 != 0);
            self.triangle.set_enabled(value & 0x04 != 0);
            self.noise.set_enabled(value & 0x08 != 0);
            self.dmc.set_enabled(value & 0x10 != 0, self.cycles % 2 == 1);
        } else if addr == 0x4017 {
            self.frame.new_mode5 = value & 0x80 != 0;
            self.frame.write_delay = if self.cycles % 2 == 1 { 4 } else { 3 };
            self.frame.inhibit_irq = value & 0x40 != 0;
            if self.frame.inhibit_irq {
                self.frame_irq = false;
            }
        }
    }

    /// What `$4015` reads, bit 5 left out. Nothing changes.
    pub fn peek_status(&self) -> (status: u8)
        ensures
            status == self@.core.status(),
    {
        (if self.pulse[0].length.counter > 0 { 0x01u8 } else { 0 })
            + (if self.pulse[1].length.counter > 0 { 0x02u8 } else { 0 })
            + (if self.triangle.length.counter > 0 { 0x04u8 } else { 0 })
            + (if self.noise.length.counter > 0 { 0x08u8 } else { 0 })
            + (if self.dmc.bytes_remaining > 0 { 0x10u8 } else { 0 })
            + (if self.frame_irq { 0x40u8 } else { 0 })
            + (if self.dmc.irq_flag { 0x80u8 } else { 0 })
    }

    /// Reads `$4015`, after [`Apu::sync`]: the frame interrupt is withdrawn.
    pub fn read_status(&mut self) -> (status: u8)
        ensures
            status == old(self)@.core.status(),
            final(self)@ == (ApuModel {
                core: ApuCore { frame_irq: false, ..old(self)@.core },
                ..old(self)@
            }),
    {
        let status: u8 = self.peek_status();
        self.frame_irq = false;
        status
    }

    /// The level of the interrupt line.
    pub fn irq(&self) -> (yes: bool)
        ensures
            yes == self@.core.interrupts(),
    {
        self.frame_irq || self.dmc.irq_flag
    }

    /// Takes the cycles that sample fetches took from the CPU.
    pub fn take_dmc_stall(&mut self) -> (stall: u32)
        ensures
            stall == old(self)@.core.dmc_stall,
            final(self)@ == (ApuModel {
                core: ApuCore { dmc_stall: 0, ..old(self)@.core },
                ..old(self)@
            }),
    {
        let stall: u32 = self.dmc_stall;
        self.dmc_stall = 0;
        stall
    }

    /// The CPU spent `cycles` cycles.
    pub fn step(&mut self, cycles: u32, cart: &Cartridge)
        requires
            old(self)@.core.wf(),
        ensures
            final(self)@ == old(self)@.stepped(cycles as int, cart@),
            final(self)@.core.wf(),
    {
        let skipped: u32 = if self.ahead as u32 <= cycles { self.ahead as u32 } else { cycles };
        self.ahead = self.ahead - skipped as u8;
        self.run(cycles - skipped, cart);
    }

    fn run(&mut self, cycles: u32, cart: &Cartridge)
        requires
            old(self)@.core.wf(),
        ensures
            final(self)@ == old(self)@.ran(cycles as int, cart@),
            final(self)@.core.wf(),
    {
        let ghost start = self@;
        let ghost c = cart@;
        let mut left: u32 = cycles;
        while left > 0
            invariant
                c == cart@,
                self@.core.wf(),
                left <= cycles,
                self@.core == start.core.after(cycles - left, c),
                self@.recording(left as int, c) == start.recording(cycles as int, c),
            decreases left,
        {
            let next: u32 = self.cycles_to_next_event();
            let chunk: u32 = if next <= left { next } else { left };
            let ghost before = self@;
            self.advance(chunk, cart);
            proof {
                lemma_advanced(before.core, chunk as int, c);
                lemma_after_adds(start.core, cycles - left, chunk as int, c);
            }
            left = left - chunk;
        }
        proof {
            assert(self@.recording(0, c) == self@.out);
        }
    }

    fn cycles_to_next_event(&self) -> (n: u32)
        requires
            self@.core.wf(),
        ensures
            n == self@.core.next_event(),
            n >= 1,
    {
        reveal(ApuCore::next_event);
        let f: FrameCounter = self.frame;
        let mut n: u32 = cycle_of_step(f.mode5, f.step) - f.cycle;
        if f.write_delay > 0 && (f.write_delay as u32) < n {
            n = f.write_delay as u32;
        }
        if self.dmc.start_delay > 0 && (self.dmc.start_delay as u32) < n {
            n = self.dmc.start_delay as u32;
        }
        if self.pulse[0].length.has_pending() || self.pulse[1].length.has_pending()
            || self.triangle.length.has_pending() || self.noise.length.has_pending() {
            return 1;
        }
        if self.pulse[0].cnt < n {
            n = self.pulse[0].cnt;
        }
        if self.pulse[1].cnt < n {
            n = self.pulse[1].cnt;
        }
        if self.triangle.cnt < n {
            n = self.triangle.cnt;
        }
        if self.noise.cnt < n {
            n = self.noise.cnt;
        }
        if self.dmc.cnt < n {
            n = self.dmc.cnt;
        }
        n
    }

    /// Goes `d` cycles on, at most up to the next event, and records them.
    fn advance(&mut self, d: u32, cart: &Cartridge)
        requires
            old(self)@.core.wf(),
            1 <= d <= old(self)@.core.next_event(),
        ensures
            final(self)@ == (ApuModel {
                core: old(self)@.core.advanced(d as int, cart@),
                out: old(self)@.heard(d as int),
            }),
            final(self)@.core.wf(),
    {
        proof {
            lemma_event_bounds(self@.core, d as int);
            reveal(AudioModel::recorded);
        }
        if self.out.enabled() {
            let level: (u8, u8) = self.out.mix(
                self.pulse[0].output(),
                self.pulse[1].output(),
                self.triangle.output(),
                self.noise.output(),
                self.dmc.output(),
            );
            self.out.integrate(level, d);
        }
        self.cycles = self.cycles.wrapping_add(d as u64);
        let (first, second, irq): (u8, u8, bool) = self.frame.advance(d);
        if irq {
            self.frame_irq = true;
        }
        self.pulse[0].advance(first, second, d);
        self.pulse[1].advance(first, second, d);
        self.triangle.advance(first, second, d);
        self.noise.advance(first, second, d);
        self.dmc_stall = self.dmc.advance(self.dmc_stall, d, cart);
    }

    /// What a debugger shows of the unit.
    pub fn debug(&self) -> (debug: ApuDebug)
        requires
            self@.core.wf(),
        ensures
            debug.pulse@[0] == pulse_debug(self@.core.pulse0),
            debug.pulse@[1] == pulse_debug(self@.core.pulse1),
            debug.triangle == triangle_debug(self@.core.triangle),
            debug.noise == noise_debug(self@.core.noise),
            debug.dmc == dmc_debug(self@.core.dmc),
            debug.frame_mode5 == self@.core.frame.mode5,
            debug.frame_inhibit_irq == self@.core.frame.inhibit_irq,
            debug.frame_step == self@.core.frame.step,
            debug.frame_cycle == self@.core.frame.cycle,
            debug.frame_irq == self@.core.frame_irq,
            debug.status == self@.core.status(),
    {
        ApuDebug {
            pulse: [debug_pulse(&self.pulse[0]), debug_pulse(&self.pulse[1])],
            triangle: TriangleDebug {
                enabled: self.triangle.enabled,
                control: self.triangle.control,
                linear_reload: self.triangle.linear_reload_value,
                linear_counter: self.triangle.linear_counter,
                length: self.triangle.length.counter,
                timer_period: self.triangle.timer_period,
                seq: self.triangle.seq,
                output: self.triangle.output(),
            },
            noise: NoiseDebug {
                enabled: self.noise.enabled,
                mode: self.noise.mode,
                period_index: self.noise.period_index,
                length: self.noise.length.counter,
                halt: self.noise.length.halt,
                constant: self.noise.envelope.constant,
                volume: self.noise.envelope.volume,
                envelope: self.noise.envelope.decay,
                shift: self.noise.shift,
                output: self.noise.output(),
            },
            dmc: DmcDebug {
                irq_enabled: self.dmc.irq_enabled,
                looping: self.dmc.looping,
                rate_index: self.dmc.rate_index,
                sample_addr: self.dmc.sample_addr,
                sample_length: self.dmc.sample_length,
                current_addr: self.dmc.current_addr,
                bytes_remaining: self.dmc.bytes_remaining,
                output_level: self.dmc.output_level,
                irq_flag: self.dmc.irq_flag,
            },
            frame_mode5: self.frame.mode5,
            frame_inhibit_irq: self.frame.inhibit_irq,
            frame_step: self.frame.step,
            frame_cycle: self.frame.cycle,
            frame_irq: self.frame_irq,
            status: self.peek_status(),
        }
    }
}

/// What a debugger shows of a pulse channel.
pub open spec fn pulse_debug(p: Pulse) -> PulseDebug {
    PulseDebug {
        enabled: p.enabled,
        duty: p.duty,
        length: p.length.counter,
        halt: p.length.halt,
        constant: p.envelope.constant,
        volume: p.envelope.volume,
        envelope: p.envelope.decay,
        sweep_enabled: p.sweep_enabled,
        sweep_period: p.sweep_period,
        sweep_negate: p.sweep_negate,
        sweep_shift: p.sweep_shift,
        timer_period: p.timer_period,
        seq: p.seq,
        output: p.level(),
    }
}

fn debug_pulse(p: &Pulse) -> (debug: PulseDebug)
    requires
        p.valid(),
    ensures
        debug == pulse_debug(*p),
{
    PulseDebug {
        enabled: p.enabled,
        duty: p.duty,
        length: p.length.counter,
        halt: p.length.halt,
        constant: p.envelope.constant,
        volume: p.envelope.volume,
        envelope: p.envelope.decay,
        sweep_enabled: p.sweep_enabled,
        sweep_period: p.sweep_period,
        sweep_negate: p.sweep_negate,
        sweep_shift: p.sweep_shift,
        timer_period: p.timer_period,
        seq: p.seq,
        output: p.output(),
    }
}

/// What a debugger shows of the triangle channel.
pub open spec fn triangle_debug(t: Triangle) -> TriangleDebug {
    TriangleDebug {
        enabled: t.enabled,
        control: t.control,
        linear_reload: t.linear_reload_value,
        linear_counter: t.linear_counter,
        length: t.length.counter,
        timer_period: t.timer_period,
        seq: t.seq,
        output: t.level(),
    }
}

/// What a debugger shows of the noise channel.
pub open spec fn noise_debug(n: Noise) -> NoiseDebug {
    NoiseDebug {
        enabled: n.enabled,
        mode: n.mode,
        period_index: n.period_index,
        length: n.length.counter,
        halt: n.length.halt,
        constant: n.envelope.constant,
        volume: n.envelope.volume,
        envelope: n.envelope.decay,
        shift: n.shift,
        output: n.level(),
    }
}

/// What a debugger shows of the sample channel.
pub open spec fn dmc_debug(d: Dmc) -> DmcDebug {
    DmcDebug {
        irq_enabled: d.irq_enabled,
        looping: d.looping,
        rate_index: d.rate_index,
        sample_addr: d.sample_addr,
        sample_length: d.sample_length,
        current_addr: d.current_addr,
        bytes_remaining: d.bytes_remaining,
        output_level: d.output_level,
        irq_flag: d.irq_flag,
    }
}

proof fn lemma_event_bounds(a: ApuCore, d: int)
    requires
        a.wf(),
        1 <= d <= a.next_event(),
    ensures
        a.frame.cycle + d <= step_cycle(a.frame.mode5, a.frame.step),
        a.frame.write_delay > 0 ==> d <= a.frame.write_delay,
        a.dmc.start_delay > 0 ==> d <= a.dmc.start_delay,
        d <= a.pulse0.cnt,
        d <= a.pulse1.cnt,
        d <= a.triangle.cnt,
        d <= a.noise.cnt,
        d <= a.dmc.cnt,
        d > 1 ==> !a.length_pending(),
{
    reveal(ApuCore::next_event);
}

proof fn lemma_one_more_cycle(a: ApuCore, d: int, cart: CartModel)
    requires
        a.wf(),
        2 <= d <= a.next_event(),
    ensures
        a.advanced(d - 1, cart).advanced(1, cart) == a.advanced(d, cart),
{
    lemma_event_bounds(a, d);
    let first = a.frame.step_clock(d);
    let second = a.frame.second_clock(d);
    a.frame.lemma_one_more_cycle(d);
    a.pulse0.lemma_one_more_cycle(first, second, d);
    a.pulse1.lemma_one_more_cycle(first, second, d);
    a.triangle.lemma_one_more_cycle(first, second, d);
    a.noise.lemma_one_more_cycle(first, second, d);
    a.dmc.lemma_one_more_cycle(a.dmc_stall, d, cart);
}

/// Going on by `d` cycles at once, up to the next event, is going on cycle by cycle.
proof fn lemma_advanced(a: ApuCore, d: int, cart: CartModel)
    requires
        a.wf(),
        1 <= d <= a.next_event(),
    ensures
        a.advanced(d, cart) == a.after(d, cart),
    decreases d,
{
    if d == 1 {
        assert(a.after(0, cart) == a);
    } else {
        lemma_advanced(a, d - 1, cart);
        lemma_one_more_cycle(a, d, cart);
    }
}

proof fn lemma_after_adds(a: ApuCore, m: int, n: int, cart: CartModel)
    requires
        0 <= m,
        0 <= n,
    ensures
        a.after(m, cart).after(n, cart) == a.after(m + n, cart),
    decreases n,
{
    if n > 0 {
        lemma_after_adds(a, m, n - 1, cart);
    }
}

proof fn lemma_cycle_keeps_wf(a: ApuCore, cart: CartModel)
    requires
        a.wf(),
    ensures
        a.advanced(1, cart).wf(),
{
    let first = a.frame.step_clock(1);
    let second = a.frame.second_clock(1);
    a.pulse0.lemma_stays_valid(0, 0, false, first, second);
    a.pulse1.lemma_stays_valid(0, 0, false, first, second);
    a.triangle.lemma_stays_valid(0, 0, false, first, second);
    a.noise.lemma_stays_valid(0, 0, false, first, second);
    a.dmc.lemma_cycle_cost(a.dmc_stall, cart);
}

proof fn lemma_cycles_keep_wf(a: ApuCore, n: int, cart: CartModel)
    requires
        a.wf(),
    ensures
        a.after(n, cart).wf(),
    decreases n,
{
    if n > 0 {
        lemma_cycles_keep_wf(a, n - 1, cart);
        lemma_cycle_keeps_wf(a.after(n - 1, cart), cart);
    }
}

/// Nothing brings the unit out of the range of the hardware.
pub proof fn law_apu_stays_wf(
    a: ApuModel,
    n: int,
    addr: u16,
    value: u8,
    soft: bool,
    cart: CartModel,
)
    requires
        a.core.wf(),
        0 <= n,
    ensures
        a.stepped(n, cart).core.wf(),
        a.synced(cart).core.wf(),
        a.core.register_written(addr, value).wf(),
        a.core.register_written(addr, value).dmc_stall == a.core.dmc_stall,
        a.core.register_written(addr, value).ahead == a.core.ahead,
        a.was_reset(soft).core.valid(),
{
    let skipped = smaller(a.core.ahead as int, n);
    let rest = ApuCore { ahead: (a.core.ahead - skipped) as u8, ..a.core };
    lemma_cycles_keep_wf(rest, n - skipped, cart);
    lemma_cycles_keep_wf(a.core, 1, cart);
    lemma_cost_of_cycles(rest, n - skipped, cart);
    lemma_cost_of_cycles(a.core, 1, cart);
    lemma_write_keeps_wf(a.core, addr, value);
}

proof fn lemma_write_keeps_wf(a: ApuCore, addr: u16, value: u8)
    requires
        a.wf(),
    ensures
        a.register_written(addr, value).wf(),
        a.register_written(addr, value).dmc_stall == a.dmc_stall,
        a.register_written(addr, value).ahead == a.ahead,
{
    reveal(ApuCore::register_written);
    let odd = a.cycles % 2 == 1;
    a.pulse0.lemma_stays_valid(addr, value, value & 0x01 != 0, 0, 0);
    a.pulse1.lemma_stays_valid(addr, value, value & 0x02 != 0, 0, 0);
    a.triangle.lemma_stays_valid(addr, value, value & 0x04 != 0, 0, 0);
    a.noise.lemma_stays_valid(addr, value, value & 0x08 != 0, 0, 0);
    a.dmc.lemma_stays_valid(addr, value, value & 0x10 != 0, odd);
}

proof fn lemma_cost_of_cycles(a: ApuCore, n: int, cart: CartModel)
    requires
        a.dmc.valid(),
        0 <= n,
    ensures
        ({
            let b = a.after(n, cart);
            &&& b.dmc.valid()
            &&& b.ahead == a.ahead
            &&& 432 * b.dmc_stall + b.dmc.urge() <= 432 * a.dmc_stall + a.dmc.urge() + 4 * n
        }),
    decreases n,
{
    if n > 0 {
        lemma_cost_of_cycles(a, n - 1, cart);
        let m = a.after(n - 1, cart);
        m.dmc.lemma_cycle_cost(m.dmc_stall, cart);
    }
}

/// The sample channel takes few cycles from the CPU: at most two fetches at once, and then one in
/// 432 cycles.
pub proof fn law_fetches_are_rare(a: ApuModel, n: int, cart: CartModel)
    requires
        a.core.wf(),
        0 <= n,
    ensures
        432 * a.stepped(n, cart).core.dmc_stall <= 432 * a.core.dmc_stall + 3452 + 4 * n,
        432 * a.synced(cart).core.dmc_stall <= 432 * a.core.dmc_stall + 3456,
        a.stepped(n, cart).core.ahead == if n >= 1 { 0 } else { a.core.ahead },
        a.synced(cart).core.ahead == 1,
{
    let skipped = smaller(a.core.ahead as int, n);
    let rest = ApuCore { ahead: (a.core.ahead - skipped) as u8, ..a.core };
    lemma_cost_of_cycles(rest, n - skipped, cart);
    lemma_cost_of_cycles(a.core, 1, cart);
}

/// Running `m` cycles and then `n` leaves the unit as running `m + n` at once does.
pub proof fn law_cycles_add_up(a: ApuModel, m: int, n: int, cart: CartModel)
    requires
        0 <= m,
        0 <= n,
    ensures
        a.ran(m, cart).ran(n, cart).core == a.ran(m + n, cart).core,
{
    lemma_after_adds(a.core, m, n, cart);
}

/// Every cycle that the unit runs is heard: as many samples end as the rate asks for in that time,
/// and all of them wait, up to the limit.
pub proof fn law_every_cycle_is_heard(a: ApuModel, n: int, cart: CartModel)
    requires
        a.core.wf(),
        a.out.enabled,
        a.out.counted(),
        a.out.clocked(),
        0 <= n,
    ensures
        ({
            let after = a.ran(n, cart).out;
            let ticks = n * TICKS_PER_CYCLE;
            let period = a.out.period() as int;
            &&& after.enabled
            &&& after.counted()
            &&& after.clocked()
            &&& after.rate == a.out.rate
            &&& after.left == left_after(ticks, a.out.left as int, period)
            &&& after.samples == at_most(
                a.out.samples + endings(ticks, a.out.left as int, period),
                MAX_BUFFERED_SAMPLES as int,
            )
        }),
    decreases n,
{
    let next = a.core.next_event();
    assert(next >= 1) by {
        reveal(ApuCore::next_event);
    }
    let d = smaller(next, n);
    if n > 0 {
        lemma_event_bounds(a.core, d);
        let pulse = a.out.pulse_position(a.core.pulse0.level(), a.core.pulse1.level());
        let tnd = a.out.tnd_position(
            a.core.triangle.level(),
            a.core.noise.level(),
            a.core.dmc.output_level,
        );
        reveal(AudioModel::recorded);
        law_every_tick_is_sampled(a.out, pulse as u8, tnd as u8, d * TICKS_PER_CYCLE);
        lemma_cycles_keep_wf(a.core, d, cart);
        law_every_cycle_is_heard(
            ApuModel { core: a.core.after(d, cart), out: a.heard(d) },
            n - d,
            cart,
        );
        lemma_time_adds_up(
            d * TICKS_PER_CYCLE,
            (n - d) * TICKS_PER_CYCLE,
            a.out.left as int,
            a.out.period() as int,
        );
    }
}

} // verus!

//! What the sound channels play: waves, envelopes, lengths, sweeps and samples.

use vstd::prelude::*;

use super::words::{bit, bit16, lemma_fields, lemma_shifts, one_if};
use crate::apu::channels::{Dmc, Envelope, LengthCounter, Noise, Pulse, Triangle};
use crate::apu::ApuCore;
use crate::cartridge::CartModel;

verus! {

proof fn lemma_register_words(reg: u16, wide: u16, period: u16)
    by (bit_vector)
    requires
        wide < 256,
        period <= 0x7FF,
    ensures
        reg & 3 == reg % 4,
        (period & 0x700) | wide == period / 256 * 256 + wide,
        (period & 0xFF) | ((wide & 7) << 8) == period % 256 + 256 * (wide % 8),
        0xC000 | (wide << 6) == 0xC000 + 64 * wide,
        (wide << 4) | 1 == 16 * wide + 1,
{
}

proof fn lemma_period_shifted(period: u16, s: u8)
    by (bit_vector)
    ensures
        s == 0 ==> period >> s == period,
        s == 1 ==> period >> s == period / 2,
        s == 2 ==> period >> s == period / 4,
        s == 3 ==> period >> s == period / 8,
        s == 4 ==> period >> s == period / 16,
        s == 5 ==> period >> s == period / 32,
        s == 6 ==> period >> s == period / 64,
        s == 7 ==> period >> s == period / 128,
{
}

#[verifier::rlimit(40)]
proof fn lemma_register_bits(reg: u16, value: u8, period: u16, s: u8)
    requires
        s < 8,
        period <= 0x7FF,
    ensures
        reg & 3 == reg % 4,
        value >> 6 == value / 64,
        value >> 6 < 4,
        value >> 3 == value / 8,
        (value >> 4) & 7 == value / 16 % 8,
        value & 127 == value % 128,
        value & 31 == value % 32,
        value & 15 == value % 16,
        value & 7 == value % 8,
        value & 3 == value % 4,
        (period & 0x700) | (value as u16) == period / 256 * 256 + value,
        (period & 0xFF) | (((value as u16) & 7) << 8) == period % 256 + 256 * (value % 8),
        0xC000 | ((value as u16) << 6) == 0xC000 + 64 * value,
        ((value as u16) << 4) | 1 == 16 * value + 1,
        (period >> s) as int == period as int / power(s as int),
{
    lemma_register_words(reg, value as u16, period);
    lemma_fields(value);
    lemma_period_shifted(period, s);
}

/// Two to the power `s`, up to seven.
pub open spec fn power(s: int) -> int {
    if s <= 0 { 1 } else if s == 1 { 2 } else if s == 2 { 4 } else if s == 3 { 8 } else if s == 4 {
        16
    } else if s == 5 { 32 } else if s == 6 { 64 } else { 128 }
}

impl LengthCounter {
    /// The counter after `n` half-frame clocks.
    pub open spec fn clocks(self, n: int) -> LengthCounter
        decreases n,
    {
        if n <= 0 { self } else { self.clocks(n - 1).ticked() }
    }
}

/// A length index loads its length at the end of the cycle, unless a clock came between or the
/// channel is off. Odd indices are the lengths 2 to 30, one less than the index, but for index 1;
/// even ones are the lengths of notes, in two tempos.
#[verifier::rlimit(40)]
pub proof fn law_lengths_load(l: LengthCounter, index: u8, enabled: bool)
    requires
        index < 32,
        l.reload == 0,
    ensures
        ({
            let length = if index == 1 {
                254
            } else if index % 2 == 1 {
                index - 1
            } else {
                let note = index as int % 16 / 2;
                if note < 5 {
                    (if index < 16 { 10int } else { 12 }) * power(note)
                } else if note == 5 {
                    if index < 16 { 60 } else { 72 }
                } else if note == 6 {
                    if index < 16 { 14 } else { 16 }
                } else {
                    if index < 16 { 26 } else { 32 }
                }
            };
            let later = l.loaded(index, enabled);
            &&& later.counter == l.counter
            &&& later.settled().counter == if enabled { length } else { l.counter as int }
            &&& l.counter > 0 && !l.halt ==> later.ticked().settled().counter == l.counter - 1
            &&& later.settled().settled().counter == later.settled().counter
        }),
{
    lemma_register_bits(0, index, 0, 0);
}

/// The length counter counts half-frame clocks down to 0, unless it is halted; a new halt flag
/// counts from the end of the cycle.
pub proof fn law_lengths_run_out(l: LengthCounter, n: int, halt: bool)
    requires
        n >= 0,
    ensures
        l.clocks(n).counter == if l.halt {
            l.counter as int
        } else if l.counter >= n {
            l.counter - n
        } else {
            0
        },
        l.clocks(n).halt == l.halt,
        l.halt_written(halt).halt == l.halt,
        l.halt_written(halt).settled().halt == halt,
        l.cleared().counter == 0,
    decreases n,
{
    if n > 0 {
        law_lengths_run_out(l, n - 1, halt);
    }
}

impl Envelope {
    /// The envelope after `n` quarter-frame clocks.
    pub open spec fn clocks(self, n: int) -> Envelope
        decreases n,
    {
        if n <= 0 { self } else { self.clocks(n - 1).ticked() }
    }
}

/// The register holds the volume in bits 0 to 3, constant volume in bit 4 and looping in bit 5.
/// Constant volume is the level; otherwise the decay is.
#[verifier::rlimit(40)]
pub proof fn law_envelopes_are_written(e: Envelope, value: u8)
    ensures
        ({
            let w = e.written(value);
            &&& w.volume == value % 16
            &&& w.constant == bit(value, 4)
            &&& w.looping == bit(value, 5)
            &&& w == Envelope {
                volume: w.volume,
                constant: w.constant,
                looping: w.looping,
                ..e
            }
            &&& w.level() == if bit(value, 4) { value as int % 16 } else { e.decay as int }
        }),
{
    lemma_register_bits(0, value, 0, 0);
    lemma_shifts(value);
}

proof fn lemma_envelope(e: Envelope, n: int)
    requires
        !e.start,
        0 <= n <= e.divider,
    ensures
        e.clocks(n) == (Envelope { divider: (e.divider - n) as u8, ..e }),
    decreases n,
{
    if n > 0 {
        lemma_envelope(e, n - 1);
    }
}

/// A restarted envelope is at 15 after its next clock. From there it drops by one with every
/// `volume` + 1 clocks, to 0, where it stays unless it loops to 15.
pub proof fn law_envelopes_decay(e: Envelope)
    ensures
        ({
            let full = e.restarted().ticked();
            full.decay == 15 && full.divider == e.volume && !full.start && full == (Envelope {
                decay: full.decay,
                divider: full.divider,
                start: false,
                ..e
            })
        }),
        !e.start && e.divider == e.volume ==> {
            let later = e.clocks(e.volume + 1);
            &&& later == Envelope { decay: later.decay, ..e }
            &&& later.decay == if e.decay > 0 {
                e.decay - 1
            } else if e.looping {
                15
            } else {
                0
            }
            &&& forall|n: int| 0 <= n <= e.volume ==> (#[trigger] e.clocks(n)).decay == e.decay
        },
{
    if !e.start && e.divider == e.volume {
        lemma_envelope(e, e.volume as int);
        assert forall|n: int| 0 <= n <= e.volume implies (#[trigger] e.clocks(n)).decay
            == e.decay by {
            lemma_envelope(e, n);
        }
    }
}

impl Pulse {
    /// The channel after `n` steps of the sequencer.
    pub open spec fn steps(self, n: int) -> Pulse
        decreases n,
    {
        if n <= 0 { self } else { self.steps(n - 1).stepped() }
    }

    /// How many of the first `n` of these are at the envelope's level.
    pub open spec fn highs(self, n: int) -> int
        decreases n,
    {
        if n <= 0 {
            0
        } else {
            self.highs(n - 1) + one_if(self.steps(n - 1).level() == self.envelope.level())
        }
    }

    /// The length runs, the period is at least 8, and the sweep would not push it over 2047.
    pub open spec fn sounds(self) -> bool {
        &&& self.length.counter > 0
        &&& self.timer_period >= 8
        &&& self.sweep_negate || self.timer_period + self.timer_period as int / power(
            self.sweep_shift as int,
        ) <= 2047
    }
}

#[verifier::rlimit(40)]
proof fn lemma_pulse_steps(p: Pulse, n: int)
    requires
        p.valid(),
        n >= 0,
    ensures
        p.steps(n) == (Pulse { seq: ((p.seq - n) % 8) as u8, cnt: p.steps(n).cnt, ..p }),
        n > 0 ==> p.steps(n).cnt == 2 * (p.timer_period + 1),
    decreases n,
{
    if n > 0 {
        lemma_pulse_steps(p, n - 1);
        let q = p.steps(n - 1);
        lemma_fields(q.seq.wrapping_sub(1));
        let d = p.seq - n;
        assert((d + 1) % 8 == if d % 8 == 7 { 0 } else { d % 8 + 1 });
    }
}

proof fn lemma_sounds(p: Pulse)
    requires
        p.valid(),
    ensures
        p.sounds() == (p.length.counter > 0 && !p.muted()),
{
    lemma_register_bits(0, 0, p.timer_period, p.sweep_shift);
}

/// One step of a pulse: the level by the position.
#[verifier::rlimit(40)]
proof fn lemma_pulse_level(p: Pulse)
    requires
        p.valid(),
    ensures
        ({
            let high = high_at(p.duty, p.seq as int);
            p.level() == if p.sounds() && high { p.envelope.level() } else { 0 }
        }),
{
    lemma_sounds(p);
    lemma_fields(p.seq);
    lemma_fields(p.duty);
}

/// A pulse that sounds is at its envelope's level on 1, 2, 4 or 6 of any eight steps in a row, for
/// duty 0, 1, 2 or 3 as bits 6 and 7 of its first register say, and at 0 on the others. After a
/// restart these are the last ones before the wave repeats, and for duty 3 all but those of duty 1.
#[verifier::rlimit(40)]
pub proof fn law_duty_is_the_share_of_high_steps(q: Pulse, reg: u16, value: u8, n: int)
    requires
        q.valid(),
        reg % 4 == 0,
        q.written(reg, value).sounds(),
        q.written(reg, value).envelope.level() > 0,
        n >= 0,
    ensures
        ({
            let p = q.written(reg, value);
            let duty = value as int / 64;
            let e = p.envelope.level();
            &&& p.highs(8) == if duty == 0 {
                1int
            } else if duty == 1 {
                2
            } else if duty == 2 {
                4
            } else {
                6
            }
            &&& p.steps(n).level() == e || p.steps(n).level() == 0
            &&& p.steps(n + 8).level() == p.steps(n).level()
            &&& q.seq == 0 ==> (p.steps(n).level() == e) == if duty == 0 {
                n % 8 == 7
            } else if duty == 1 {
                n % 8 >= 6
            } else if duty == 2 {
                n % 8 >= 4
            } else {
                n % 8 < 6
            }
        }),
{
    let p = q.written(reg, value);
    p.lemma_of_written(q, reg, value);
    lemma_pulse_steps(p, n);
    lemma_pulse_steps(p, n + 8);
    assert((p.seq - (n + 8)) % 8 == (p.seq - n) % 8);
    lemma_pulse_level(p.steps(n));
    lemma_pulse_level(p.steps(n + 8));
    if q.seq == 0 {
        assert((0 - n) % 8 == (8 - n % 8) % 8);
    }
    lemma_highs(p);
}

/// Where the wave is high: a place of it, by duty.
spec fn high_at(duty: u8, s: int) -> bool {
    if duty == 0 {
        s == 1
    } else if duty == 1 {
        s == 1 || s == 2
    } else if duty == 2 {
        1 <= s <= 4
    } else {
        s == 0 || s >= 3
    }
}

/// How many of the first `n` places from `s` down are high.
spec fn high_places(duty: u8, s: int, n: int) -> int
    decreases n,
{
    if n <= 0 {
        0
    } else {
        let at = if s >= n - 1 { s - (n - 1) } else { s - (n - 1) + 8 };
        high_places(duty, s, n - 1) + one_if(high_at(duty, at))
    }
}

proof fn lemma_high_places(p: Pulse, n: int)
    requires
        p.valid(),
        p.sounds(),
        p.envelope.level() > 0,
        0 <= n <= 8,
    ensures
        p.highs(n) == high_places(p.duty, p.seq as int, n),
    decreases n,
{
    if n > 0 {
        lemma_high_places(p, n - 1);
        lemma_high(p, n - 1);
    }
}

proof fn lemma_share(duty: u8, s: int)
    requires
        0 <= s < 8,
        duty < 4,
    ensures
        high_places(duty, s, 8) == if duty == 0 {
            1int
        } else if duty == 1 {
            2
        } else if duty == 2 {
            4
        } else {
            6
        },
{
    reveal_with_fuel(high_places, 9);
    if duty == 0 {
    } else if duty == 1 {
    } else if duty == 2 {
    } else {
    }
}

proof fn lemma_highs(p: Pulse)
    requires
        p.valid(),
        p.sounds(),
        p.envelope.level() > 0,
    ensures
        p.highs(8) == if p.duty == 0 {
            1int
        } else if p.duty == 1 {
            2
        } else if p.duty == 2 {
            4
        } else {
            6
        },
{
    lemma_high_places(p, 8);
    lemma_share(p.duty, p.seq as int);
}

proof fn lemma_high(p: Pulse, n: int)
    requires
        p.valid(),
        p.sounds(),
        p.envelope.level() > 0,
        0 <= n < 8,
    ensures
        ({
            let s = if p.seq >= n { p.seq - n } else { p.seq - n + 8 };
            (p.steps(n).level() == p.envelope.level()) == high_at(p.duty, s)
        }),
{
    lemma_pulse_steps(p, n);
    lemma_pulse_level(p.steps(n));
}

impl Pulse {
    proof fn lemma_of_written(self, q: Pulse, reg: u16, value: u8)
        requires
            q.valid(),
            self == q.written(reg, value),
        ensures
            self.valid(),
            reg % 4 == 0 ==> self.duty == value / 64,
            reg % 4 == 0 ==> self.seq == q.seq,
    {
        lemma_register_bits(reg, value, q.timer_period, 0);
    }
}

/// A pulse that does not sound is silent, on every step.
pub proof fn law_silent_pulses_are_silent(p: Pulse)
    requires
        p.valid(),
        !p.sounds(),
    ensures
        p.level() == 0,
        p.stepped().level() == 0,
{
    lemma_pulse_level(p);
    lemma_pulse_steps(p, 1);
    reveal_with_fuel(Pulse::steps, 2);
    lemma_pulse_level(p.stepped());
}

/// The registers of a pulse: duty and envelope; the sweep; the low eight bits of the period; its
/// high three bits with the length, which also restarts the wave and the envelope.
#[verifier::rlimit(40)]
pub proof fn law_pulses_are_written(p: Pulse, reg: u16, value: u8)
    requires
        p.valid(),
    ensures
        ({
            let w = p.written(reg, value);
            &&& reg % 4 == 0 ==> w == Pulse {
                duty: value / 64,
                envelope: p.envelope.written(value),
                length: p.length.halt_written(bit(value, 5)),
                ..p
            }
            &&& reg % 4 == 1 ==> w == Pulse {
                sweep_enabled: bit(value, 7),
                sweep_period: value / 16 % 8,
                sweep_negate: bit(value, 3),
                sweep_shift: value % 8,
                sweep_reload: true,
                ..p
            }
            &&& reg % 4 == 2 ==> w == Pulse { timer_period: w.timer_period, ..p }
                && w.timer_period % 256 == value && w.timer_period / 256 == p.timer_period / 256
            &&& reg % 4 == 3 ==> w == Pulse {
                timer_period: w.timer_period,
                length: p.length.loaded(value / 8, p.enabled),
                envelope: p.envelope.restarted(),
                seq: 0,
                ..p
            } && w.timer_period % 256 == p.timer_period % 256 && w.timer_period / 256 == value % 8
        }),
{
    lemma_register_bits(reg, value, p.timer_period, 0);
    lemma_shifts(value);
}

/// The sweep moves the period up or down by the period divided by two to the shift; the first
/// pulse goes down by one more. It does so when its divider runs out, if it is on, shifts at all,
/// and the result is in range; the divider starts over then or when the register was written.
#[verifier::rlimit(40)]
pub proof fn law_sweeps_shift_the_period(p: Pulse)
    requires
        p.valid(),
    ensures
        ({
            let change = p.timer_period as int / power(p.sweep_shift as int);
            let down = p.timer_period - change - one_if(p.ones_complement);
            let target = if !p.sweep_negate {
                p.timer_period + change
            } else if down >= 0 {
                down
            } else {
                0
            };
            let s = p.swept();
            let moves = p.sweep_divider == 0 && p.sweep_enabled && p.sweep_shift > 0
                && p.timer_period >= 8 && target <= 2047;
            &&& p.target() == target
            &&& s.timer_period == if moves { target } else { p.timer_period as int }
            &&& s.sweep_divider == if p.sweep_divider == 0 || p.sweep_reload {
                p.sweep_period as int
            } else {
                p.sweep_divider - 1
            }
            &&& !s.sweep_reload
            &&& s == Pulse {
                timer_period: s.timer_period,
                sweep_divider: s.sweep_divider,
                sweep_reload: false,
                ..p
            }
        }),
{
    lemma_register_bits(0, 0, p.timer_period, p.sweep_shift);
}

impl Triangle {
    /// The channel after `n` steps of the sequencer.
    pub open spec fn steps(self, n: int) -> Triangle
        decreases n,
    {
        if n <= 0 { self } else { self.steps(n - 1).stepped() }
    }
}

#[verifier::rlimit(40)]
proof fn lemma_triangle_steps(t: Triangle, n: int)
    requires
        t.valid(),
        t.length.counter > 0,
        t.linear_counter > 0,
        n >= 0,
    ensures
        t.steps(n) == (Triangle { seq: ((t.seq + n) % 32) as u8, cnt: t.steps(n).cnt, ..t }),
        n > 0 ==> t.steps(n).cnt == t.timer_period + 1,
    decreases n,
{
    if n > 0 {
        lemma_triangle_steps(t, n - 1);
        let q = t.steps(n - 1);
        lemma_register_bits(0, (q.seq + 1) as u8, 0, 0);
        let d = t.seq + n - 1;
        assert((d + 1) % 32 == if d % 32 == 31 { 0 } else { d % 32 + 1 });
    }
}

/// A running triangle falls from 15 to 0 in 16 steps and rises again in 16, each level twice; with
/// a counter at 0 it holds its level. A period of 0 or 1 gives the mean.
#[verifier::rlimit(40)]
pub proof fn law_triangles_fall_and_rise(t: Triangle, n: int)
    requires
        t.valid(),
        n >= 0,
    ensures
        ({
            let runs = t.length.counter > 0 && t.linear_counter > 0;
            let at = (t.seq + n) % 32;
            &&& runs && t.timer_period >= 2 ==> t.steps(n).level() == if at < 16 {
                15 - at
            } else {
                at - 16
            }
            &&& runs && t.timer_period < 2 ==> t.steps(n).level() == 8
            &&& !runs ==> t.stepped().level() == t.level() && t.stepped().seq == t.seq
            &&& !runs ==> t.level() == if t.seq < 16 { 15 - t.seq } else { t.seq - 16 }
            &&& t.stepped().cnt == t.timer_period + 1
        }),
{
    if t.length.counter > 0 && t.linear_counter > 0 {
        lemma_triangle_steps(t, n);
    }
}

/// The linear counter takes its reload value at a quarter-frame clock while the reload flag is set,
/// and counts down otherwise. The flag stays while the control flag is set.
pub proof fn law_linear_counters_count(t: Triangle)
    ensures
        ({
            let l = t.linear_ticked();
            &&& l.linear_counter == if t.linear_reload_flag {
                t.linear_reload_value as int
            } else if t.linear_counter > 0 {
                t.linear_counter - 1
            } else {
                0
            }
            &&& l.linear_reload_flag == (t.linear_reload_flag && t.control)
            &&& l == Triangle {
                linear_counter: l.linear_counter,
                linear_reload_flag: l.linear_reload_flag,
                ..t
            }
        }),
{
}

/// The registers of the triangle: control and the reload value; the low eight bits of the period;
/// its high three bits with the length, which also sets the reload flag.
#[verifier::rlimit(40)]
pub proof fn law_triangles_are_written(t: Triangle, reg: u16, value: u8)
    requires
        t.valid(),
    ensures
        ({
            let w = t.written(reg, value);
            &&& reg % 4 == 0 ==> w == Triangle {
                control: bit(value, 7),
                linear_reload_value: value % 128,
                length: t.length.halt_written(bit(value, 7)),
                ..t
            }
            &&& reg % 4 == 1 ==> w == t
            &&& reg % 4 == 2 ==> w == Triangle { timer_period: w.timer_period, ..t }
                && w.timer_period % 256 == value && w.timer_period / 256 == t.timer_period / 256
            &&& reg % 4 == 3 ==> w == Triangle {
                timer_period: w.timer_period,
                length: t.length.loaded(value / 8, t.enabled),
                linear_reload_flag: true,
                ..t
            } && w.timer_period % 256 == t.timer_period % 256 && w.timer_period / 256 == value % 8
        }),
{
    lemma_register_bits(reg, value, t.timer_period, 0);
    lemma_shifts(value);
}

proof fn lemma_noise_bits(s: u16, f: u16, i: u16)
    by (bit_vector)
    requires
        s < 0x8000,
        i < 14,
    ensures
        f <= 1 ==> (((s >> 1) | (f << 14)) >> i) & 1 == (s >> ((i + 1) as u16)) & 1,
        f <= 1 ==> (((s >> 1) | (f << 14)) >> 14) & 1 == f,
        ((s & 1) ^ ((s >> 6) & 1) == 1) == (((s >> 0) & 1 == 1) != ((s >> 6) & 1 == 1)),
        ((s & 1) ^ ((s >> 1) & 1) == 1) == (((s >> 0) & 1 == 1) != ((s >> 1) & 1 == 1)),
        (s & 1) ^ ((s >> 6) & 1) <= 1,
        (s & 1) ^ ((s >> 1) & 1) <= 1,
        (s & 1 != 0) == ((s >> 0) & 1 == 1),
        s != 0 ==> (s >> 1) | (((s & 1) ^ ((s >> 1) & 1)) << 14) != 0,
        s != 0 ==> (s >> 1) | (((s & 1) ^ ((s >> 6) & 1)) << 14) != 0,
{
}

/// The noise register moves one bit down with every step, and bit 14 takes whether bit 0 differs
/// from bit 1, or from bit 6 in short mode. The channel sounds while bit 0 is clear and its length
/// runs. The next step comes after the period of the index. A register with a bit set never runs
/// out of them.
pub proof fn law_noise_shifts(n: Noise, i: u16)
    requires
        n.valid(),
        i < 14,
    ensures
        ({
            let s = n.stepped();
            let k = n.period_index as int;
            &&& bit16(s.shift, i) == bit16(n.shift, (i + 1) as u16)
            &&& bit16(s.shift, 14) == (bit16(n.shift, 0) != bit16(n.shift, if n.mode { 6 } else { 1 }))
            &&& s == Noise { shift: s.shift, cnt: s.cnt, ..n }
            &&& n.shift != 0 ==> s.shift != 0
            &&& s.cnt == if k <= 4 {
                4 * power(k)
            } else if k <= 7 {
                32 * (k - 2)
            } else if k == 8 {
                202
            } else if k == 9 {
                254
            } else if k == 10 {
                380
            } else if k == 11 {
                508
            } else if k == 12 {
                762
            } else if k == 13 {
                1016
            } else if k == 14 {
                2034
            } else {
                4068
            }
            &&& n.level() == if bit16(n.shift, 0) || n.length.counter == 0 {
                0
            } else {
                n.envelope.level()
            }
        }),
{
    lemma_noise_bits(n.shift, n.feedback(), i);
    lemma_register_bits(0, n.period_index, 0, 0);
}

/// The registers of the noise channel: its envelope; mode and period; the length, which also
/// restarts the envelope.
#[verifier::rlimit(40)]
pub proof fn law_noise_is_written(n: Noise, reg: u16, value: u8)
    ensures
        n.written(reg, value) == if reg % 4 == 0 {
            Noise {
                envelope: n.envelope.written(value),
                length: n.length.halt_written(bit(value, 5)),
                ..n
            }
        } else if reg % 4 == 2 {
            Noise { mode: bit(value, 7), period_index: value % 16, ..n }
        } else if reg % 4 == 3 {
            Noise {
                length: n.length.loaded(value / 8, n.enabled),
                envelope: n.envelope.restarted(),
                ..n
            }
        } else {
            n
        },
{
    lemma_register_bits(reg, value, 0, 0);
    lemma_shifts(value);
}

/// Clocks of the frame counter: 1 clocks the envelope or the linear counter, 2 also the length and
/// the sweep, 0 nothing.
pub proof fn law_clocks_reach_their_parts(p: Pulse, t: Triangle, n: Noise, kind: u8)
    requires
        kind <= 2,
    ensures
        ({
            let c = p.clocked(kind);
            &&& c.envelope == if kind == 0 { p.envelope } else { p.envelope.ticked() }
            &&& c.length == if kind == 2 { p.length.ticked() } else { p.length }
            &&& c == Pulse {
                envelope: c.envelope,
                length: c.length,
                ..if kind == 2 { p.swept() } else { p }
            }
        }),
        ({
            let c = t.clocked(kind);
            &&& c.length == if kind == 2 { t.length.ticked() } else { t.length }
            &&& c == Triangle {
                length: c.length,
                ..if kind == 0 { t } else { t.linear_ticked() }
            }
        }),
        ({
            let c = n.clocked(kind);
            &&& c.envelope == if kind == 0 { n.envelope } else { n.envelope.ticked() }
            &&& c.length == if kind == 2 { n.length.ticked() } else { n.length }
            &&& c == Noise { envelope: c.envelope, length: c.length, ..n }
        }),
{
}

/// Without clocks, every timer counts one cycle down and steps its sequencer in the cycle in which
/// it runs out; a length that waits is loaded at the end of the first cycle.
pub proof fn law_timers_count(p: Pulse, t: Triangle, n: Noise)
    ensures
        p.length.settled() == p.length ==> p.advanced(0, 0, 1) == if p.cnt == 1 {
            p.stepped()
        } else {
            Pulse { cnt: (p.cnt - 1) as u32, ..p }
        },
        p.advanced(0, 0, 1).length == p.length.settled(),
        t.length.settled() == t.length ==> t.advanced(0, 0, 1) == if t.cnt == 1 {
            t.stepped()
        } else {
            Triangle { cnt: (t.cnt - 1) as u32, ..t }
        },
        t.advanced(0, 0, 1).length == t.length.settled(),
        n.length.settled() == n.length ==> n.advanced(0, 0, 1) == if n.cnt == 1 {
            n.stepped()
        } else {
            Noise { cnt: (n.cnt - 1) as u32, ..n }
        },
        n.advanced(0, 0, 1).length == n.length.settled(),
        p.stepped().cnt == 2 * (p.timer_period + 1) as u32,
{
    reveal(Pulse::advanced);
    reveal(Triangle::advanced);
    reveal(Noise::advanced);
}

/// The registers of the sample channel: interrupt, loop and rate; the level; the address, in units
/// of 64 from `$C000`; the length, in units of 16 and one more. Without permission the interrupt is
/// cleared.
#[verifier::rlimit(40)]
pub proof fn law_samples_are_written(d: Dmc, reg: u16, value: u8)
    ensures
        d.written(reg, value) == if reg % 4 == 0 {
            Dmc {
                irq_enabled: bit(value, 7),
                looping: bit(value, 6),
                rate_index: value % 16,
                irq_flag: d.irq_flag && bit(value, 7),
                ..d
            }
        } else if reg % 4 == 1 {
            Dmc { output_level: value % 128, ..d }
        } else if reg % 4 == 2 {
            Dmc { sample_addr: (0xC000 + 64 * value) as u16, ..d }
        } else {
            Dmc { sample_length: (16 * value + 1) as u16, ..d }
        },
{
    lemma_register_bits(reg, value, 0, 0);
    lemma_shifts(value);
}

/// Each step of the output plays the lowest bit of the byte, unless silent: the level goes up or
/// down by two, and not beyond 0 and 127. After eight steps the buffered byte is next; with none
/// the channel falls silent. The next step comes after the period of the rate.
#[verifier::rlimit(40)]
pub proof fn law_samples_play(d: Dmc)
    requires
        d.valid(),
    ensures
        ({
            let s = d.output_stepped();
            let k = d.rate_index as int;
            let level = if d.silence {
                d.output_level as int
            } else if bit(d.shift_register, 0) {
                if d.output_level <= 125 { d.output_level + 2 } else { d.output_level as int }
            } else {
                if d.output_level >= 2 { d.output_level - 2 } else { d.output_level as int }
            };
            let last = d.bits_remaining == 1;
            &&& s.output_level == level
            &&& s.bits_remaining == if last { 8 } else { d.bits_remaining - 1 }
            &&& !last ==> s.silence == d.silence && s.buffer_empty == d.buffer_empty
            &&& !last && !d.silence ==> s.shift_register == d.shift_register / 2
            &&& last && d.buffer_empty ==> s.silence && s.buffer_empty
            &&& last && !d.buffer_empty ==> !s.silence && s.buffer_empty && s.shift_register
                == d.read_buffer
            &&& s == Dmc {
                output_level: s.output_level,
                bits_remaining: s.bits_remaining,
                silence: s.silence,
                buffer_empty: s.buffer_empty,
                shift_register: s.shift_register,
                cnt: s.cnt,
                ..d
            }
            &&& s.cnt == seq![
                428int,
                380,
                340,
                320,
                286,
                254,
                226,
                214,
                190,
                160,
                142,
                128,
                106,
                84,
                72,
                54,
            ][k]
        }),
{
    lemma_register_bits(0, d.rate_index, 0, 0);
    lemma_shifts(d.shift_register);
    crate::bits::lemma_shift_u8(d.shift_register);
}

/// A byte that was fetched fills the buffer, and the address moves on, from `$FFFF` to `$8000`.
/// After the last byte a looping sample starts over, and another asks for an interrupt if it may.
pub proof fn law_samples_are_fetched(d: Dmc, value: u8)
    requires
        d.valid(),
        d.bytes_remaining > 0,
    ensures
        ({
            let f = d.fed(value);
            let last = d.bytes_remaining == 1;
            let again = last && d.looping;
            &&& !f.buffer_empty
            &&& f.read_buffer == value
            &&& f.bytes_remaining == if again {
                d.sample_length as int
            } else {
                d.bytes_remaining - 1
            }
            &&& f.current_addr == if again {
                d.sample_addr as int
            } else if d.current_addr == 0xFFFF {
                0x8000
            } else {
                d.current_addr + 1
            }
            &&& f.irq_flag == (d.irq_flag || (last && !d.looping && d.irq_enabled))
            &&& f == Dmc {
                buffer_empty: false,
                read_buffer: value,
                bytes_remaining: f.bytes_remaining,
                current_addr: f.current_addr,
                irq_flag: f.irq_flag,
                ..d
            }
        }),
{
}

/// A sample whose buffer is empty and that has bytes left fetches the next one at its address, which
/// holds the CPU for four cycles: when its start is due, and when its output took the last one.
/// Nothing is fetched otherwise.
pub proof fn law_fetches_hold_the_cpu(d: Dmc, stall: u32, cart: CartModel)
    requires
        d.valid(),
        stall <= 1000,
    ensures
        ({
            let (f, held) = d.advanced(stall, 1, cart);
            let waits = d.start_delay > 0;
            let due = d.start_delay == 1 && d.buffer_empty && d.bytes_remaining > 0;
            let empties = d.cnt == 1 && d.bits_remaining == 1 && !d.buffer_empty
                && d.bytes_remaining > 0;
            &&& d.cnt > 1 ==> held == if due { stall + 4 } else { stall as int }
            &&& d.cnt > 1 ==> f == Dmc {
                cnt: (d.cnt - 1) as u32,
                start_delay: if waits { (d.start_delay - 1) as u8 } else { 0 },
                ..if due { d.fed(cart.prg_byte(d.current_addr)) } else { d }
            }
            &&& !waits ==> held == if empties { stall + 4 } else { stall as int }
            &&& !waits && d.cnt == 1 ==> f == if empties {
                d.output_stepped().fed(cart.prg_byte(d.current_addr))
            } else {
                d.output_stepped()
            }
        }),
{
    reveal(Dmc::advanced);
}

/// A write to a register reaches the channel that it belongs to and no other.
pub proof fn law_registers_reach_their_channel(u: ApuCore, addr: u16, value: u8)
    requires
        0x4000 <= addr < 0x4014,
    ensures
        u.register_written(addr, value) == if addr < 0x4004 {
            ApuCore { pulse0: u.pulse0.written(addr, value), ..u }
        } else if addr < 0x4008 {
            ApuCore { pulse1: u.pulse1.written(addr, value), ..u }
        } else if addr < 0x400C {
            ApuCore { triangle: u.triangle.written(addr, value), ..u }
        } else if addr < 0x4010 {
            ApuCore { noise: u.noise.written(addr, value), ..u }
        } else {
            ApuCore { dmc: u.dmc.written(addr, value), ..u }
        },
{
    reveal(ApuCore::register_written);
}

/// A write to `$4015` switches each channel by a bit of its own: one that is off has no length, or
/// no bytes left, and an idle sample that is on starts over. It clears the sample's interrupt. A
/// read gives back which lengths run and whether bytes are left, with the two interrupts in bits 6
/// and 7.
#[verifier::rlimit(40)]
pub proof fn law_channels_are_switched(u: ApuCore, value: u8)
    ensures
        ({
            let w = u.register_written(0x4015, value);
            &&& w.pulse0.enabled == bit(value, 0)
            &&& w.pulse1.enabled == bit(value, 1)
            &&& w.triangle.enabled == bit(value, 2)
            &&& w.noise.enabled == bit(value, 3)
            &&& w.pulse0.length.counter == if bit(value, 0) { u.pulse0.length.counter } else { 0 }
            &&& w.pulse1.length.counter == if bit(value, 1) { u.pulse1.length.counter } else { 0 }
            &&& w.triangle.length.counter == if bit(value, 2) {
                u.triangle.length.counter
            } else {
                0
            }
            &&& w.noise.length.counter == if bit(value, 3) { u.noise.length.counter } else { 0 }
            &&& !w.dmc.irq_flag
            &&& !bit(value, 4) ==> w.dmc.bytes_remaining == 0 && w.dmc.start_delay == 0
            &&& bit(value, 4) && u.dmc.bytes_remaining > 0 ==> w.dmc == (Dmc {
                irq_flag: false,
                ..u.dmc
            })
            &&& bit(value, 4) && u.dmc.bytes_remaining == 0 ==> w.dmc.bytes_remaining
                == u.dmc.sample_length && w.dmc.current_addr == u.dmc.sample_addr
                && w.dmc.start_delay == 2 + u.cycles % 2
            &&& w.frame == u.frame && w.frame_irq == u.frame_irq
        }),
        ({
            let s = u.status() as int;
            &&& s % 2 == one_if(u.pulse0.length.counter > 0)
            &&& s / 2 % 2 == one_if(u.pulse1.length.counter > 0)
            &&& s / 4 % 2 == one_if(u.triangle.length.counter > 0)
            &&& s / 8 % 2 == one_if(u.noise.length.counter > 0)
            &&& s / 16 % 2 == one_if(u.dmc.bytes_remaining > 0)
            &&& s / 32 % 2 == 0
            &&& s / 64 % 2 == one_if(u.frame_irq)
            &&& s / 128 == one_if(u.dmc.irq_flag)
        }),
        u.interrupts() == (u.frame_irq || u.dmc.irq_flag),
{
    reveal(ApuCore::register_written);
    lemma_shifts(value);
}

} // verus!

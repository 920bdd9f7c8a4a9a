//! The sound output of the machine, before it becomes samples of a wave.
//!
//! Between two events of the sound unit every channel holds its level. A sample is the mean level
//! over a stretch of time whose length the sample rate gives, so the output is a list of segments:
//! two mixer positions, for how long they held, and whether a sample ends there. A player looks the
//! positions up in the mixer's two curves, takes the mean over each sample, and filters it. This is
//! output, not state: it is no part of a save state, and nothing in the machine reads it.
//!
//! Time is counted in ticks, of which a CPU cycle has 2^32, and a sample rate in microhertz.

use std::collections::VecDeque;
use vstd::arithmetic::div_mod::{
    lemma_basic_div, lemma_div_plus_one, lemma_div_pos_is_pos, lemma_fundamental_div_mod,
    lemma_hoist_over_denominator, lemma_mod_bound, lemma_mod_multiples_vanish,
    lemma_mod_sub_multiples_vanish, lemma_small_mod,
};
use vstd::prelude::*;

verus! {

/// The channels, one bit each, for the mask of those that are heard.
pub const CHANNEL_PULSE1: u8 = 0x01;

pub const CHANNEL_PULSE2: u8 = 0x02;

pub const CHANNEL_TRIANGLE: u8 = 0x04;

pub const CHANNEL_NOISE: u8 = 0x08;

pub const CHANNEL_DMC: u8 = 0x10;

pub const ALL_CHANNELS: u8 = 0x1F;

/// The clock of the CPU, in tenths of a microhertz.
pub const CPU_CLOCK: u64 = 17_897_727_272_727;

/// The sample rate unless another is set, in microhertz: 48 kHz.
pub const DEFAULT_SAMPLE_RATE: u64 = 48_000_000_000;

/// The lowest sample rate, 8 kHz. One below it is raised to it.
pub const MIN_SAMPLE_RATE: u64 = 8_000_000_000;

/// The highest sample rate, 192 kHz. One above it is lowered to it.
pub const MAX_SAMPLE_RATE: u64 = 192_000_000_000;

/// How many samples wait at most for somebody to take them. The oldest give way.
pub const MAX_BUFFERED_SAMPLES: usize = 131_072;

/// The ticks of a CPU cycle.
pub const TICKS_PER_CYCLE: u64 = 0x1_0000_0000;

/// A stretch of constant output.
#[derive(Debug, Clone, Copy, PartialEq, Eq, Structural)]
pub struct MixSegment {
    /// The sum of the pulse channels, 0 to 30.
    pub pulse: u8,
    /// Three times the triangle, twice the noise, and the DMC: 0 to 202.
    pub tnd: u8,
    /// How many ticks it lasts.
    pub ticks: u64,
    /// If a sample ends with it, how many ticks a sample lasts; else 0.
    pub period: u64,
}

/// How many ticks a sample lasts at a sample rate.
#[verifier::opaque]
pub open spec fn period_of(rate: u64) -> u64 {
    (CPU_CLOCK * TICKS_PER_CYCLE / (10 * rate)) as u64
}

/// A sample rate within its limits.
pub open spec fn clamped(rate: u64) -> u64 {
    if rate < MIN_SAMPLE_RATE {
        MIN_SAMPLE_RATE
    } else if rate > MAX_SAMPLE_RATE {
        MAX_SAMPLE_RATE
    } else {
        rate
    }
}

/// Where the output is in its sample.
#[derive(Debug, Clone, Copy)]
pub struct SampleClock {
    rate: u64,
    period: u64,
    /// How many ticks are left of the sample.
    left: u64,
}

impl SampleClock {
    #[verifier::type_invariant]
    spec fn in_order(self) -> bool {
        &&& MIN_SAMPLE_RATE <= self.rate <= MAX_SAMPLE_RATE
        &&& self.period == period_of(self.rate)
        &&& 0 < self.left <= self.period
    }

    pub closed spec fn rate(self) -> u64 {
        self.rate
    }

    pub closed spec fn left(self) -> u64 {
        self.left
    }

    /// At the beginning of a sample.
    fn at(rate: u64) -> (clock: Self)
        ensures
            clock.rate == clamped(rate),
            clock.left == period_of(clamped(rate)),
    {
        let rate: u64 = if rate < MIN_SAMPLE_RATE {
            MIN_SAMPLE_RATE
        } else if rate > MAX_SAMPLE_RATE {
            MAX_SAMPLE_RATE
        } else {
            rate
        };
        proof {
            lemma_period(rate);
        }
        let ticks: u128 = CPU_CLOCK as u128 * TICKS_PER_CYCLE as u128;
        let period: u64 = (ticks / (10 * rate as u128)) as u64;
        SampleClock { rate, period, left: period }
    }
}

proof fn lemma_period(rate: u64)
    requires
        MIN_SAMPLE_RATE <= rate <= MAX_SAMPLE_RATE,
    ensures
        0 < CPU_CLOCK * TICKS_PER_CYCLE / (10 * rate) <= u64::MAX,
        0 < period_of(rate),
        period_of(rate) == CPU_CLOCK * TICKS_PER_CYCLE / (10 * rate),
{
    reveal(period_of);
    let n = CPU_CLOCK * TICKS_PER_CYCLE;
    let d = 10 * rate as int;
    assert(0 < n / d <= 1_000_000_000_000) by (nonlinear_arith)
        requires
            n == 17_897_727_272_727 * 0x1_0000_0000,
            80_000_000_000 <= d <= 1_920_000_000_000,
    ;
}

#[derive(Debug, Clone)]
pub struct AudioOut {
    /// Whether anything is recorded.
    enabled: bool,
    /// The channels that are heard.
    channel_mask: u8,
    clock: SampleClock,
    segments: VecDeque<MixSegment>,
    /// How many samples wait.
    samples: usize,
}

/// The output as a value.
pub struct AudioModel {
    pub enabled: bool,
    pub channel_mask: u8,
    /// The sample rate.
    pub rate: u64,
    /// How many ticks are left of the sample that is on its way.
    pub left: u64,
    /// The samples that wait, and behind them the one that is on its way.
    pub segments: Seq<MixSegment>,
    /// How many samples wait.
    pub samples: usize,
}

impl View for AudioOut {
    type V = AudioModel;

    closed spec fn view(&self) -> AudioModel {
        AudioModel {
            enabled: self.enabled,
            channel_mask: self.channel_mask,
            rate: self.clock.rate(),
            left: self.clock.left(),
            segments: self.segments@,
            samples: self.samples,
        }
    }
}

/// The level, if the channel is among those that are heard.
pub open spec fn heard(mask: u8, bit: u8, level: u8) -> int {
    if mask & bit != 0 { level as int } else { 0 }
}

pub open spec fn at_most(n: int, limit: int) -> int {
    if n <= limit { n } else { limit }
}

/// How many ticks segments last together.
pub open spec fn lasting(segments: Seq<MixSegment>) -> nat
    decreases segments.len(),
{
    if segments.len() == 0 {
        0
    } else {
        lasting(segments.drop_last()) + segments.last().ticks as nat
    }
}

/// How many samples end in segments.
pub open spec fn samples_in(segments: Seq<MixSegment>) -> nat
    decreases segments.len(),
{
    if segments.len() == 0 {
        0
    } else {
        samples_in(segments.drop_last()) + if segments.last().period > 0 { 1nat } else { 0 }
    }
}

/// How many of the segments belong to samples that have ended.
pub open spec fn ended(segments: Seq<MixSegment>) -> nat
    decreases segments.len(),
{
    if segments.len() == 0 {
        0
    } else if segments.last().period > 0 {
        segments.len()
    } else {
        ended(segments.drop_last())
    }
}

/// The segments with one more behind them. It is joined to the last one if that has its levels and
/// belongs to the same sample.
pub open spec fn extended(segments: Seq<MixSegment>, segment: MixSegment) -> Seq<MixSegment> {
    let last = segments.last();
    if segments.len() > 0 && last.period == 0 && last.pulse == segment.pulse && last.tnd
        == segment.tnd && last.ticks + segment.ticks <= u64::MAX {
        segments.drop_last().push(
            MixSegment { ticks: (last.ticks + segment.ticks) as u64, ..segment },
        )
    } else {
        segments.push(segment)
    }
}

/// The segments without their first sample.
pub open spec fn without_first(segments: Seq<MixSegment>) -> Seq<MixSegment>
    decreases segments.len(),
{
    if segments.len() == 0 {
        segments
    } else if segments[0].period > 0 {
        segments.skip(1)
    } else {
        without_first(segments.skip(1))
    }
}

/// How many samples end in `ticks`, if `left` of the first one are left.
pub open spec fn endings(ticks: int, left: int, period: int) -> int {
    if ticks < left { 0 } else { 1 + (ticks - left) / period }
}

/// How many ticks are left of a sample after `ticks`.
pub open spec fn left_after(ticks: int, left: int, period: int) -> int {
    if ticks < left { left - ticks } else { period - (ticks - left) % period }
}

impl AudioModel {
    pub open spec fn fresh() -> AudioModel {
        AudioModel {
            enabled: true,
            channel_mask: 0x1F,
            rate: DEFAULT_SAMPLE_RATE,
            left: period_of(DEFAULT_SAMPLE_RATE),
            segments: Seq::empty(),
            samples: 0,
        }
    }

    /// How many ticks a sample lasts.
    pub open spec fn period(self) -> u64 {
        period_of(self.rate)
    }

    /// The count is that of the samples that wait, and within its limit.
    pub open spec fn counted(self) -> bool {
        self.samples == samples_in(self.segments) && self.samples <= MAX_BUFFERED_SAMPLES
    }

    /// The output is somewhere in a sample of its rate.
    pub open spec fn clocked(self) -> bool {
        MIN_SAMPLE_RATE <= self.rate <= MAX_SAMPLE_RATE && 0 < self.left <= self.period()
    }

    /// The position in the pulse curve.
    pub open spec fn pulse_position(self, pulse1: u8, pulse2: u8) -> int {
        at_most(heard(self.channel_mask, 1, pulse1) + heard(self.channel_mask, 2, pulse2), 30)
    }

    /// The position in the curve of the other three channels.
    pub open spec fn tnd_position(self, triangle: u8, noise: u8, dmc: u8) -> int {
        at_most(
            3 * heard(self.channel_mask, 4, triangle) + 2 * heard(self.channel_mask, 8, noise)
                + heard(self.channel_mask, 16, dmc),
            202,
        )
    }

    /// The output with one more segment. If a sample ends with it, it is counted, and the oldest
    /// one makes room if there are too many.
    pub open spec fn with_segment(self, segment: MixSegment) -> AudioModel {
        if segment.period == 0 {
            AudioModel { segments: extended(self.segments, segment), ..self }
        } else if self.samples >= MAX_BUFFERED_SAMPLES {
            AudioModel { segments: extended(without_first(self.segments), segment), ..self }
        } else {
            AudioModel {
                segments: extended(self.segments, segment),
                samples: (self.samples + 1) as usize,
                ..self
            }
        }
    }

    /// The output with these levels held for some ticks more, cut where samples end.
    pub open spec fn sampled(self, pulse: u8, tnd: u8, ticks: int) -> AudioModel
        decreases ticks,
    {
        if ticks <= 0 || self.left == 0 {
            self
        } else if ticks < self.left {
            AudioModel {
                left: (self.left - ticks) as u64,
                ..self.with_segment(MixSegment { pulse, tnd, ticks: ticks as u64, period: 0 })
            }
        } else {
            AudioModel {
                left: self.period(),
                ..self.with_segment(
                    MixSegment { pulse, tnd, ticks: self.left, period: self.period() },
                )
            }.sampled(pulse, tnd, ticks - self.left)
        }
    }

    /// The output with these levels held for some CPU cycles more, where it records at all.
    #[verifier::opaque]
    pub open spec fn recorded(self, pulse: int, tnd: int, cycles: int) -> AudioModel {
        if self.enabled {
            self.sampled(pulse as u8, tnd as u8, cycles as u32 * TICKS_PER_CYCLE)
        } else {
            self
        }
    }

    /// The samples that wait.
    pub open spec fn waiting(self) -> Seq<MixSegment> {
        self.segments.take(ended(self.segments) as int)
    }

    /// The output after the samples that wait were taken. The one on its way stays.
    pub open spec fn drained(self) -> AudioModel {
        AudioModel {
            segments: self.segments.skip(ended(self.segments) as int),
            samples: 0,
            ..self
        }
    }

    /// Nothing waits, and a sample begins.
    pub open spec fn silenced(self) -> AudioModel {
        AudioModel { left: self.period(), segments: Seq::empty(), samples: 0, ..self }
    }

    /// Recording is switched. Switching off drops what waits.
    pub open spec fn switched(self, enabled: bool) -> AudioModel {
        AudioModel { enabled, ..if enabled { self } else { self.silenced() } }
    }

    /// Another sample rate. The sample on its way lasts no longer than one of the new rate; nothing
    /// else changes.
    pub open spec fn retuned(self, rate: u64) -> AudioModel {
        let period = period_of(clamped(rate));
        AudioModel {
            rate: clamped(rate),
            left: if self.left > period { period } else { self.left },
            ..self
        }
    }
}

impl Default for AudioOut {
    fn default() -> (out: Self)
        ensures
            out@ == AudioModel::fresh(),
    {
        AudioOut {
            enabled: true,
            channel_mask: ALL_CHANNELS,
            clock: SampleClock::at(DEFAULT_SAMPLE_RATE),
            segments: VecDeque::new(),
            samples: 0,
        }
    }
}

fn pick(mask: u8, bit: u8, level: u8) -> (out: u16)
    ensures
        out == heard(mask, bit, level),
{
    if mask & bit != 0 {
        level as u16
    } else {
        0
    }
}

impl AudioOut {
    /// Switches recording. Switching off drops what waits.
    pub fn set_enabled(&mut self, enabled: bool)
        ensures
            final(self)@ == old(self)@.switched(enabled),
    {
        self.enabled = enabled;
        if !enabled {
            self.reset_signal();
        }
    }

    pub fn enabled(&self) -> (enabled: bool)
        ensures
            enabled == self@.enabled,
    {
        self.enabled
    }

    /// Chooses the channels that are heard.
    pub fn set_channel_mask(&mut self, mask: u8)
        ensures
            final(self)@ == (AudioModel { channel_mask: mask & 0x1F, ..old(self)@ }),
    {
        self.channel_mask = mask & ALL_CHANNELS;
    }

    pub fn channel_mask(&self) -> (mask: u8)
        ensures
            mask == self@.channel_mask,
    {
        self.channel_mask
    }

    /// Sets the sample rate, in microhertz.
    pub fn set_sample_rate(&mut self, rate: u64)
        ensures
            final(self)@ == old(self)@.retuned(rate),
    {
        proof {
            use_type_invariant(&self.clock);
        }
        let left: u64 = self.clock.left;
        let clock: SampleClock = SampleClock::at(rate);
        proof {
            use_type_invariant(&clock);
        }
        self.clock = SampleClock { left: if left > clock.left { clock.left } else { left }, ..clock };
    }

    /// The sample rate, in microhertz.
    pub fn sample_rate(&self) -> (rate: u64)
        ensures
            rate == self@.rate,
    {
        self.clock.rate
    }

    /// Drops what waits; the settings stay.
    pub fn reset_signal(&mut self)
        ensures
            final(self)@ == old(self)@.silenced(),
    {
        proof {
            use_type_invariant(&self.clock);
        }
        let clock: SampleClock = self.clock;
        self.clock = SampleClock { left: clock.period, ..clock };
        self.segments.clear();
        self.samples = 0;
    }

    /// Takes over the settings of another output, and drops what waits.
    pub fn adopt_settings(&mut self, other: &AudioOut)
        ensures
            final(self)@ == other@.silenced(),
    {
        self.enabled = other.enabled;
        self.channel_mask = other.channel_mask;
        self.clock = other.clock;
        self.reset_signal();
    }

    /// The positions in the mixer's two curves, of the channels that are heard.
    pub fn mix(&self, pulse1: u8, pulse2: u8, triangle: u8, noise: u8, dmc: u8) -> (level: (u8, u8))
        ensures
            level.0 == self@.pulse_position(pulse1, pulse2),
            level.1 == self@.tnd_position(triangle, noise, dmc),
    {
        let m: u8 = self.channel_mask;
        let pulse: u16 = pick(m, CHANNEL_PULSE1, pulse1) + pick(m, CHANNEL_PULSE2, pulse2);
        let tnd: u16 = 3 * pick(m, CHANNEL_TRIANGLE, triangle) + 2 * pick(m, CHANNEL_NOISE, noise)
            + pick(m, CHANNEL_DMC, dmc);
        (
            if pulse <= 30 { pulse as u8 } else { 30 },
            if tnd <= 202 { tnd as u8 } else { 202 },
        )
    }

    /// The output holds `level` for `cycles` CPU cycles.
    pub fn integrate(&mut self, level: (u8, u8), cycles: u32)
        requires
            old(self)@.enabled,
        ensures
            final(self)@ == old(self)@.recorded(level.0 as int, level.1 as int, cycles as int),
    {
        reveal(AudioModel::recorded);
        let ticks: u64 = cycles as u64 * TICKS_PER_CYCLE;
        let mut remaining: u64 = ticks;
        proof {
            use_type_invariant(&self.clock);
        }
        while remaining >= self.clock.left
            invariant
                self.clock.left > 0,
                self@.sampled(level.0, level.1, remaining as int) == old(self)@.sampled(
                    level.0,
                    level.1,
                    ticks as int,
                ),
            decreases remaining,
        {
            proof {
                use_type_invariant(&self.clock);
            }
            let clock: SampleClock = self.clock;
            self.add(
                MixSegment {
                    pulse: level.0,
                    tnd: level.1,
                    ticks: clock.left,
                    period: clock.period,
                },
            );
            self.clock = SampleClock { left: clock.period, ..clock };
            remaining = remaining - clock.left;
        }
        if remaining > 0 {
            proof {
                use_type_invariant(&self.clock);
            }
            let clock: SampleClock = self.clock;
            self.add(MixSegment { pulse: level.0, tnd: level.1, ticks: remaining, period: 0 });
            self.clock = SampleClock { left: clock.left - remaining, ..clock };
        }
    }

    fn add(&mut self, segment: MixSegment)
        ensures
            final(self)@ == old(self)@.with_segment(segment),
            final(self).clock == old(self).clock,
    {
        if segment.period > 0 {
            if self.samples >= MAX_BUFFERED_SAMPLES {
                self.drop_first();
            } else {
                self.samples = self.samples + 1;
            }
        }
        self.extend(segment);
    }

    /// Puts a segment behind what waits.
    fn extend(&mut self, segment: MixSegment)
        ensures
            final(self)@ == (AudioModel {
                segments: extended(old(self)@.segments, segment),
                ..old(self)@
            }),
            final(self).clock == old(self).clock,
    {
        let ghost before = self.segments@;
        if let Some(last) = self.segments.pop_back() {
            let fits: bool = last.ticks <= u64::MAX - segment.ticks;
            if last.period == 0 && last.pulse == segment.pulse && last.tnd == segment.tnd && fits {
                self.segments.push_back(
                    MixSegment { ticks: last.ticks + segment.ticks, ..segment },
                );
            } else {
                self.segments.push_back(last);
                assert(self.segments@ =~= before);
                self.segments.push_back(segment);
            }
        } else {
            self.segments.push_back(segment);
        }
        assert(self.segments@ =~= extended(before, segment));
    }

    /// Drops the oldest sample.
    fn drop_first(&mut self)
        ensures
            final(self)@ == (AudioModel {
                segments: without_first(old(self)@.segments),
                ..old(self)@
            }),
            final(self).clock == old(self).clock,
    {
        let mut done: bool = false;
        while !done
            invariant
                done ==> self.segments@ == without_first(old(self)@.segments),
                !done ==> without_first(self.segments@) == without_first(old(self)@.segments),
                old(self)@ == (AudioModel { segments: old(self)@.segments, ..self@ }),
                self.clock == old(self).clock,
            decreases self.segments@.len(), if done { 0int } else { 1 },
        {
            let ghost before = self.segments@;
            match self.segments.pop_front() {
                Some(first) => {
                    assert(self.segments@ =~= before.skip(1));
                    done = first.period > 0;
                },
                None => {
                    assert(self.segments@ =~= before);
                    done = true;
                },
            }
        }
    }

    /// Moves the samples that wait to the end of `out`.
    pub fn take_samples(&mut self, out: &mut Vec<MixSegment>)
        ensures
            final(out)@ == old(out)@ + old(self)@.waiting(),
            final(self)@ == old(self)@.drained(),
    {
        let ghost all = self.segments@;
        let mut count: usize = self.segments.len();
        assert(all.take(count as int) =~= all);
        while count > 0 && self.segments[count - 1].period == 0
            invariant
                self.segments@ == all,
                count <= all.len(),
                ended(all.take(count as int)) == ended(all),
            decreases count,
        {
            assert(all.take(count as int).drop_last() =~= all.take(count - 1));
            count = count - 1;
        }
        assert(count == ended(all)) by {
            if count > 0 {
                assert(all.take(count as int).last() == all[count - 1]);
            }
        }
        self.samples = 0;
        let mut taken: usize = 0;
        assert(all.skip(0) =~= all);
        assert(out@ =~= old(out)@ + all.take(0));
        while taken < count
            invariant
                taken <= count <= all.len(),
                self.segments@ == all.skip(taken as int),
                out@ == old(out)@ + all.take(taken as int),
                self.samples == 0,
                old(self)@ == (AudioModel {
                    segments: all,
                    samples: old(self)@.samples,
                    ..self@
                }),
            decreases count - taken,
        {
            if let Some(segment) = self.segments.pop_front() {
                out.push(segment);
                assert(out@ =~= old(out)@ + all.take(taken + 1));
                assert(self.segments@ =~= all.skip(taken + 1));
            }
            taken = taken + 1;
        }
    }

    /// How many samples wait.
    pub fn buffered(&self) -> (count: usize)
        ensures
            count == self@.samples,
    {
        self.samples
    }
}

// ---- laws ----------------------------------------------------------------------

proof fn lemma_turns(t: int, period: int)
    requires
        0 <= t,
        0 < period,
    ensures
        t < period ==> t / period == 0 && t % period == t,
        t >= period ==> t / period == 1 + (t - period) / period && t % period == (t - period)
            % period,
        0 <= t / period,
        0 <= t % period < period,
{
    if t < period {
        lemma_basic_div(t, period);
        lemma_small_mod(t as nat, period as nat);
    } else {
        lemma_div_plus_one(t - period, period);
        lemma_mod_sub_multiples_vanish(t, period);
    }
    lemma_div_pos_is_pos(t, period);
    lemma_mod_bound(t, period);
}

/// Time that passes in two parts passes as it does in one.
pub proof fn lemma_time_adds_up(first: int, second: int, left: int, period: int)
    requires
        0 <= first,
        0 <= second,
        0 < left <= period,
    ensures
        endings(first + second, left, period) == endings(first, left, period) + endings(
            second,
            left_after(first, left, period),
            period,
        ),
        left_after(first + second, left, period) == left_after(
            second,
            left_after(first, left, period),
            period,
        ),
        0 < left_after(first, left, period) <= period,
        0 <= endings(first, left, period),
        0 <= endings(second, left_after(first, left, period), period),
{
    if first >= left {
        let u = first - left;
        let q = u / period;
        let rest = u % period;
        lemma_turns(u, period);
        lemma_fundamental_div_mod(u, period);
        lemma_hoist_over_denominator(rest + second, q, period as nat);
        lemma_mod_multiples_vanish(q, rest + second, period);
        assert(period * q == q * period) by (nonlinear_arith);
        lemma_turns(rest + second, period);
        if second >= period - rest {
            lemma_turns(second - (period - rest), period);
        }
    } else {
        if first + second >= left {
            lemma_turns(first + second - left, period);
        }
    }
}

proof fn lemma_first(segments: Seq<MixSegment>)
    requires
        segments.len() > 0,
    ensures
        samples_in(segments) == samples_in(segments.skip(1)) + if segments[0].period > 0 {
            1nat
        } else {
            0
        },
    decreases segments.len(),
{
    reveal_with_fuel(samples_in, 2);
    if segments.len() == 1 {
        assert(segments.drop_last() =~= Seq::empty());
        assert(segments.skip(1) =~= Seq::empty());
    } else {
        lemma_first(segments.drop_last());
        assert(segments.skip(1).drop_last() =~= segments.drop_last().skip(1));
    }
}

proof fn lemma_without_first(segments: Seq<MixSegment>)
    requires
        samples_in(segments) > 0,
    ensures
        samples_in(without_first(segments)) == samples_in(segments) - 1,
    decreases segments.len(),
{
    lemma_first(segments);
    if segments[0].period == 0 {
        lemma_without_first(segments.skip(1));
    }
}

proof fn lemma_extended(segments: Seq<MixSegment>, segment: MixSegment)
    ensures
        samples_in(extended(segments, segment)) == samples_in(segments) + if segment.period > 0 {
            1nat
        } else {
            0
        },
        lasting(extended(segments, segment)) == lasting(segments) + segment.ticks,
{
    let all = extended(segments, segment);
    assert(all.drop_last() =~= segments || all.drop_last() =~= segments.drop_last());
}

/// No tick is lost and no sample is doubled: as many samples end as the rate asks for, and all of
/// them wait, up to the limit. As long as none had to give way, what waits lasts as much longer as
/// was recorded.
pub proof fn law_every_tick_is_sampled(out: AudioModel, pulse: u8, tnd: u8, ticks: int)
    requires
        out.counted(),
        out.clocked(),
        0 <= ticks,
    ensures
        ({
            let after = out.sampled(pulse, tnd, ticks);
            let period = out.period() as int;
            let ended = endings(ticks, out.left as int, period);
            &&& after.counted()
            &&& after.clocked()
            &&& after.enabled == out.enabled
            &&& after.channel_mask == out.channel_mask
            &&& after.rate == out.rate
            &&& after.left == left_after(ticks, out.left as int, period)
            &&& after.samples == at_most(out.samples + ended, MAX_BUFFERED_SAMPLES as int)
            &&& out.samples + ended <= MAX_BUFFERED_SAMPLES ==> lasting(after.segments) == lasting(
                out.segments,
            ) + ticks
        }),
    decreases ticks,
{
    let period = out.period();
    if 0 < ticks < out.left {
        lemma_extended(
            out.segments,
            MixSegment { pulse, tnd, ticks: ticks as u64, period: 0 },
        );
    } else if ticks > 0 {
        let segment = MixSegment { pulse, tnd, ticks: out.left, period };
        let next = AudioModel { left: period, ..out.with_segment(segment) };
        if out.samples >= MAX_BUFFERED_SAMPLES {
            lemma_without_first(out.segments);
            lemma_extended(without_first(out.segments), segment);
        } else {
            lemma_extended(out.segments, segment);
        }
        let rest = ticks - out.left;
        lemma_turns(rest, period as int);
        law_every_tick_is_sampled(next, pulse, tnd, rest);
    }
}

/// Recording switches nothing.
pub proof fn lemma_settings_stay(out: AudioModel, pulse: int, tnd: int, cycles: int)
    ensures
        out.recorded(pulse, tnd, cycles).enabled == out.enabled,
{
    reveal(AudioModel::recorded);
    if out.enabled {
        lemma_sampling_switches_nothing(
            out,
            pulse as u8,
            tnd as u8,
            cycles as u32 * TICKS_PER_CYCLE,
        );
    }
}

proof fn lemma_sampling_switches_nothing(out: AudioModel, pulse: u8, tnd: u8, ticks: int)
    ensures
        out.sampled(pulse, tnd, ticks).enabled == out.enabled,
    decreases ticks,
{
    if ticks > 0 && out.left > 0 && ticks >= out.left {
        lemma_sampling_switches_nothing(
            AudioModel {
                left: out.period(),
                ..out.with_segment(
                    MixSegment { pulse, tnd, ticks: out.left, period: out.period() },
                )
            },
            pulse,
            tnd,
            ticks - out.left,
        );
    }
}

/// Taking the samples takes all that wait, and leaves what there is of the one on its way.
pub proof fn law_taking_leaves_the_sample_on_its_way(out: AudioModel)
    ensures
        out.waiting() + out.drained().segments == out.segments,
        samples_in(out.waiting()) == samples_in(out.segments),
        samples_in(out.drained().segments) == 0,
        out.drained().counted(),
{
    lemma_ended(out.segments);
    assert(out.waiting() + out.drained().segments =~= out.segments);
}

proof fn lemma_ended(segments: Seq<MixSegment>)
    ensures
        ended(segments) <= segments.len(),
        samples_in(segments.take(ended(segments) as int)) == samples_in(segments),
        samples_in(segments.skip(ended(segments) as int)) == 0,
    decreases segments.len(),
{
    let n = ended(segments) as int;
    if segments.len() > 0 && segments.last().period == 0 {
        lemma_ended(segments.drop_last());
        assert(segments.take(n) =~= segments.drop_last().take(n));
        assert(segments.skip(n).drop_last() =~= segments.drop_last().skip(n));
    } else {
        assert(segments.take(n) =~= segments);
        assert(segments.skip(n) =~= Seq::empty());
    }
}

} // verus!

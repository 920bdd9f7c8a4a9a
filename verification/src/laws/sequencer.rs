//! The frame counter of the sound unit, and the mix of its channels.

use vstd::prelude::*;

use super::words::{bit, lemma_shifts, one_if};
use crate::apu::output::{
    endings, extended, law_every_tick_is_sampled, period_of, AudioModel, MixSegment, CPU_CLOCK,
    MAX_BUFFERED_SAMPLES, MAX_SAMPLE_RATE, MIN_SAMPLE_RATE,
};
use crate::apu::{ApuCore, ApuModel, FrameCounter};
use crate::cartridge::CartModel;

verus! {

/// The step that comes next, by the cycle that the counter is at.
pub open spec fn step_at(mode5: bool, cycle: int) -> int {
    if cycle < 7457 {
        0
    } else if cycle < 14913 {
        1
    } else if cycle < 22371 {
        2
    } else if mode5 {
        if cycle < 29829 { 3 } else if cycle < 37281 { 4 } else { 5 }
    } else {
        if cycle < 29828 { 3 } else if cycle < 29829 { 4 } else { 5 }
    }
}

/// With no write waiting, the frame counter goes round in 29830 cycles, or in 37282 in the five-step
/// mode. After a clock no other is given for one more cycle. Envelopes and the linear counter are clocked at cycles 7457, 14913, 22371 and 29829, or
/// 37281; lengths and sweeps at the second and fourth of these. In the four-step mode the interrupt
/// is raised at cycles 29828 to 29830, unless it is inhibited.
pub proof fn law_the_frame_counter_goes_round(f: FrameCounter)
    requires
        f.wf(),
        f.write_delay == 0,
        f.step == step_at(f.mode5, f.cycle as int),
    ensures
        ({
            let g = f.advanced(1);
            let t = f.cycle + 1;
            let last = if f.mode5 { 37282int } else { 29830 };
            let quarter = t == 7457 || t == 22371;
            let half = t == 14913 || t == last - 1;
            &&& g.cycle == if t == last { 0 } else { t }
            &&& g.step == step_at(g.mode5, g.cycle as int)
            &&& f.second_clock(1) == 0
            &&& f.block == 0 ==> f.step_clock(1) == if half {
                2int
            } else if quarter {
                1
            } else {
                0
            }
            &&& f.block > 0 ==> f.step_clock(1) == 0
            &&& f.block == 0 ==> g.block == if quarter || half { 1int } else { 0 }
            &&& f.block > 0 ==> g.block == f.block - 1
            &&& f.raises_irq(1) == (!f.mode5 && !f.inhibit_irq && 29828 <= t <= 29830)
            &&& g.mode5 == f.mode5 && g.inhibit_irq == f.inhibit_irq && g.write_delay == 0
        }),
{
}

/// A register access makes the unit run its cycle ahead of the CPU's; it is not run again.
pub proof fn law_looking_ahead_loses_no_cycle(a: ApuModel, n: int, cart: CartModel)
    requires
        a.core.ahead == 0,
        n >= 1,
    ensures
        a.synced(cart).stepped(n, cart).core == a.stepped(n, cart).core,
        a.synced(cart).synced(cart) == a.synced(cart),
        a.synced(cart).core == (ApuCore { ahead: 1, ..a.core.after(1, cart) }),
        a.stepped(n, cart).core == a.core.after(n, cart),
{
    let one = a.core.after(1, cart);
    lemma_ahead(a.core, 0, 1, cart);
    lemma_later(a.core, n, cart);
    lemma_ahead(one, 0, n - 1, cart);
    assert(ApuCore { ahead: 0, ..a.core } == a.core);
    assert(ApuCore { ahead: 0, ..one } == one);
}

proof fn lemma_ahead(u: ApuCore, ahead: u8, n: int, cart: CartModel)
    ensures
        (ApuCore { ahead, ..u }).after(n, cart) == (ApuCore { ahead, ..u.after(n, cart) }),
        u.after(n, cart).ahead == u.ahead,
    decreases n,
{
    if n > 0 {
        lemma_ahead(u, ahead, n - 1, cart);
    }
}

proof fn lemma_later(u: ApuCore, n: int, cart: CartModel)
    requires
        n >= 1,
    ensures
        u.after(1, cart).after(n - 1, cart) == u.after(n, cart),
    decreases n,
{
    if n > 1 {
        lemma_later(u, n - 1, cart);
    }
}

/// A write to `$4017` sets the mode by bit 7 and inhibits the interrupt by bit 6, which clears it.
/// It takes effect three cycles later, or four from an odd cycle: the counter starts over, and the
/// five-step mode clocks everything at once.
#[verifier::rlimit(40)]
pub proof fn law_the_frame_counter_is_written(u: ApuCore, value: u8)
    requires
        u.wf(),
    ensures
        ({
            let w = u.register_written(0x4017, value);
            let delay = 3 + u.cycles as int % 2;
            &&& w.frame.write_delay == delay
            &&& w.frame.new_mode5 == bit(value, 7)
            &&& w.frame.inhibit_irq == bit(value, 6)
            &&& w.frame_irq == (u.frame_irq && !bit(value, 6))
            &&& w.frame.cycle == u.frame.cycle && w.frame.mode5 == u.frame.mode5
            &&& w == ApuCore { frame: w.frame, frame_irq: w.frame_irq, ..u }
        }),
{
    reveal(ApuCore::register_written);
    lemma_shifts(value);
}

/// A write that waits counts down and then restarts the counter in its mode.
pub proof fn law_a_written_mode_takes_effect(f: FrameCounter)
    requires
        f.wf(),
        f.write_delay > 0,
    ensures
        ({
            let g = f.advanced(1);
            &&& g.write_delay == f.write_delay - 1
            &&& f.write_delay > 1 ==> g.mode5 == f.mode5 && f.second_clock(1) == 0
            &&& f.write_delay == 1 ==> {
                &&& g.mode5 == f.new_mode5
                &&& g.cycle == 0
                &&& g.step == 0
                &&& f.second_clock(1) == if f.new_mode5 && f.block == 0 && f.step_clock(1) == 0 {
                    2int
                } else {
                    0
                }
            }
        }),
{
}

/// The interrupt stays until it is cleared, and the channels go on with the clocks of the frame
/// counter.
pub proof fn law_clocks_reach_all_channels(u: ApuCore, cart: CartModel)
    requires
        u.wf(),
    ensures
        ({
            let d = u.advanced(1, cart);
            let first = u.frame.step_clock(1);
            let second = u.frame.second_clock(1);
            &&& d.frame_irq == (u.frame_irq || u.frame.raises_irq(1))
            &&& d.pulse0 == u.pulse0.advanced(first, second, 1)
            &&& d.pulse1 == u.pulse1.advanced(first, second, 1)
            &&& d.triangle == u.triangle.advanced(first, second, 1)
            &&& d.noise == u.noise.advanced(first, second, 1)
            &&& d.frame == u.frame.advanced(1)
            &&& d.cycles == u.cycles.wrapping_add(1)
        }),
{
}

/// The mixer adds the pulses, and three times the triangle, twice the noise and the sample. A
/// channel that is not to be heard adds nothing.
#[verifier::rlimit(40)]
pub proof fn law_the_mixer_adds(out: AudioModel, p1: u8, p2: u8, t: u8, n: u8, d: u8)
    requires
        p1 <= 15,
        p2 <= 15,
        t <= 15,
        n <= 15,
        d <= 127,
    ensures
        out.pulse_position(p1, p2) == p1 * one_if(bit(out.channel_mask, 0)) + p2 * one_if(
            bit(out.channel_mask, 1),
        ),
        out.tnd_position(t, n, d) == 3 * t * one_if(bit(out.channel_mask, 2)) + 2 * n * one_if(
            bit(out.channel_mask, 3),
        ) + d * one_if(bit(out.channel_mask, 4)),
{
    lemma_shifts(out.channel_mask);
}

/// What is heard is the mix of the five channels' levels, while the output is on.
pub proof fn law_the_levels_are_heard(a: ApuModel, d: int)
    requires
        a.out.enabled,
    ensures
        a.heard(d) == a.out.recorded(
            a.out.pulse_position(a.core.pulse0.level(), a.core.pulse1.level()),
            a.out.tnd_position(
                a.core.triangle.level(),
                a.core.noise.level(),
                a.core.dmc.output_level,
            ),
            d,
        ),
{
}

/// A sample lasts as long as the rate says, to the tick: `rate` of them fit into a second of the
/// CPU's clock, and with one tick more they do not.
#[verifier::rlimit(40)]
pub proof fn law_samples_last_as_the_rate_says(rate: u64)
    requires
        MIN_SAMPLE_RATE <= rate <= MAX_SAMPLE_RATE,
    ensures
        period_of(rate) * 10 * rate <= CPU_CLOCK * 0x1_0000_0000,
        (period_of(rate) + 1) * 10 * rate > CPU_CLOCK * 0x1_0000_0000,
{
    reveal(period_of);
    let n = CPU_CLOCK * 0x1_0000_0000;
    let d = 10 * rate as int;
    let q = n / d;
    vstd::arithmetic::div_mod::lemma_fundamental_div_mod(n, d);
    vstd::arithmetic::div_mod::lemma_mod_bound(n, d);
    assert(0 < q <= 1_000_000_000_000) by (nonlinear_arith)
        requires
            n == d * q + n % d,
            0 <= n % d < d,
            d >= 80_000_000_000,
            n == 17_897_727_272_727 * 0x1_0000_0000,
            d <= 1_920_000_000_000,
    ;
    assert(q * 10 * rate == d * q) by (nonlinear_arith)
        requires
            d == 10 * rate,
    ;
    assert((q + 1) * 10 * rate == d * q + d) by (nonlinear_arith)
        requires
            d == 10 * rate,
    ;
}

/// The levels of the pulses, each times how long it held.
pub open spec fn pulse_area(segments: Seq<MixSegment>) -> int
    decreases segments.len(),
{
    if segments.len() == 0 {
        0
    } else {
        pulse_area(segments.drop_last()) + segments.last().pulse * segments.last().ticks
    }
}

/// Those of the other channels.
pub open spec fn tnd_area(segments: Seq<MixSegment>) -> int
    decreases segments.len(),
{
    if segments.len() == 0 {
        0
    } else {
        tnd_area(segments.drop_last()) + segments.last().tnd * segments.last().ticks
    }
}

proof fn lemma_area(segments: Seq<MixSegment>, segment: MixSegment)
    ensures
        pulse_area(extended(segments, segment)) == pulse_area(segments) + segment.pulse
            * segment.ticks,
        tnd_area(extended(segments, segment)) == tnd_area(segments) + segment.tnd * segment.ticks,
{
    let all = extended(segments, segment);
    if segments.len() > 0 && all.len() == segments.len() {
        let last = segments.last();
        assert(all.drop_last() =~= segments.drop_last());
        assert(segment.pulse * (last.ticks + segment.ticks) == segment.pulse * last.ticks
            + segment.pulse * segment.ticks) by (nonlinear_arith);
        assert(segment.tnd * (last.ticks + segment.ticks) == segment.tnd * last.ticks + segment.tnd
            * segment.ticks) by (nonlinear_arith);
    } else {
        assert(all.drop_last() =~= segments);
    }
}

/// No level is lost: as long as no sample had to give way, the levels that wait, each times how long
/// it held, grow by what was recorded.
pub proof fn law_every_level_is_sampled(out: AudioModel, pulse: u8, tnd: u8, ticks: int)
    requires
        out.counted(),
        out.clocked(),
        0 <= ticks,
        out.samples + endings(ticks, out.left as int, out.period() as int) <= MAX_BUFFERED_SAMPLES,
    ensures
        ({
            let after = out.sampled(pulse, tnd, ticks);
            &&& pulse_area(after.segments) == pulse_area(out.segments) + pulse * ticks
            &&& tnd_area(after.segments) == tnd_area(out.segments) + tnd * ticks
        }),
    decreases ticks,
{
    let period = out.period();
    if 0 < ticks < out.left {
        lemma_area(out.segments, MixSegment { pulse, tnd, ticks: ticks as u64, period: 0 });
    } else if ticks > 0 {
        let segment = MixSegment { pulse, tnd, ticks: out.left, period };
        let next = AudioModel { left: period, ..out.with_segment(segment) };
        let rest = ticks - out.left;
        lemma_area(out.segments, segment);
        law_every_tick_is_sampled(
            out,
            pulse,
            tnd,
            out.left as int,
        );
        assert(out.sampled(pulse, tnd, out.left as int) == next) by {
            reveal_with_fuel(AudioModel::sampled, 3);
        }
        assert(endings(out.left as int, out.left as int, period as int) == 1) by {
            assert(0int / (period as int) == 0) by (nonlinear_arith)
                requires
                    period > 0,
            ;
        }
        assert(endings(ticks, out.left as int, period as int) == 1 + endings(
            rest,
            period as int,
            period as int,
        )) by {
            lemma_rest(rest, period as int);
        }
        law_every_level_is_sampled(next, pulse, tnd, rest);
        assert(pulse * out.left + pulse * rest == pulse * ticks) by (nonlinear_arith)
            requires
                rest == ticks - out.left,
        ;
        assert(tnd * out.left + tnd * rest == tnd * ticks) by (nonlinear_arith)
            requires
                rest == ticks - out.left,
        ;
    } else {
        assert(pulse * 0 == 0 && tnd * 0 == 0);
    }
}

proof fn lemma_rest(rest: int, period: int)
    requires
        rest >= 0,
        period > 0,
    ensures
        rest / period == if rest < period { 0 } else { 1 + (rest - period) / period },
{
    if rest < period {
        vstd::arithmetic::div_mod::lemma_basic_div(rest, period);
    } else {
        vstd::arithmetic::div_mod::lemma_div_plus_one(rest - period, period);
    }
}

/// Levels are recorded for 2^32 ticks of each cycle, while the output is on; else nothing is.
pub proof fn law_cycles_are_recorded(out: AudioModel, pulse: u8, tnd: u8, cycles: u32)
    ensures
        out.enabled ==> out.recorded(pulse as int, tnd as int, cycles as int) == out.sampled(
            pulse,
            tnd,
            cycles * 0x1_0000_0000,
        ),
        !out.enabled ==> out.recorded(pulse as int, tnd as int, cycles as int) == out,
{
    reveal(AudioModel::recorded);
}

/// Another rate is taken within 8 and 192 kHz and leaves what waits alone; output that is switched
/// off drops it, and output that is switched on keeps it.
pub proof fn law_the_output_is_set(out: AudioModel, rate: u64, on: bool)
    ensures
        ({
            let r = out.retuned(rate);
            &&& r.rate == if rate < 8_000_000_000 {
                8_000_000_000
            } else if rate > 192_000_000_000 {
                192_000_000_000
            } else {
                rate
            }
            &&& r.left <= r.period()
            &&& out.left <= r.period() ==> r.left == out.left
            &&& r == AudioModel { rate: r.rate, left: r.left, ..out }
        }),
        out.switched(true) == (AudioModel { enabled: true, ..out }),
        !out.switched(false).enabled,
        out.switched(false).segments.len() == 0,
        out.switched(on).channel_mask == out.channel_mask,
        out.switched(on).rate == out.rate,
{
}

} // verus!

//! How the parts of a machine are saved and restored.
//!
//! A part's `saved` is a function from the bytes that follow it to the whole stream, put together
//! from the last field to the first. Its `restored` takes the fields off a tape in order. Restoring
//! what was saved gives the part back.

use vstd::prelude::*;

use super::wire::{group_read_back, put_block, put_number, put_raw, Reader, Tape, Writer};
use crate::apu::{
    Apu, ApuCore, ApuModel, AudioModel, AudioOut, Dmc, Envelope, FrameCounter, LengthCounter, Noise,
    Pulse, Triangle,
};
use crate::bus::{Bus, BusModel};
use crate::cartridge::mapper::{Cnrom, Mapper, Mmc1, Nrom, Uxrom};
use crate::cartridge::{CartModel, Cartridge, Mirroring, RomId, RomInfo};
use crate::cpu::{Cpu, CpuModel, StatusFlags};
use crate::error::DecodeError;
use crate::fingerprint::{put_bool, put_u8};
use crate::frame::{blank_picture, FrameBuffer};
use crate::joypad::{Buttons, Joypad};
use crate::nes::{Nes, NesModel};
use crate::ppu::{Ppu, PpuModel};

verus! {

impl LengthCounter {
    /// A length counter, then `rest`.
    #[verifier::opaque]
    pub open spec fn saved(self, rest: Seq<u8>) -> Seq<u8> {
        let rest = put_u8(self.previous, rest);
        let rest = put_u8(self.reload, rest);
        let rest = put_bool(self.new_halt, rest);
        let rest = put_bool(self.halt, rest);
        put_u8(self.counter, rest)
    }

    #[verifier::opaque]
    pub open spec fn restored(t: Tape) -> (LengthCounter, Tape) {
        let (counter, t) = t.byte();
        let (halt, t) = t.flag();
        let (new_halt, t) = t.flag();
        let (reload, t) = t.byte();
        let (previous, t) = t.byte();
        (LengthCounter { counter, halt, new_halt, reload, previous }, t)
    }

    pub fn save(&self, w: &mut Writer)
        ensures
            forall|rest: Seq<u8>| #[trigger] (final(w)@ + rest) == old(w)@ + self.saved(rest),
    {
        reveal(LengthCounter::saved);
        w.byte(self.counter);
        w.flag(self.halt);
        w.flag(self.new_halt);
        w.byte(self.reload);
        w.byte(self.previous);
    }

    pub fn restore(r: &mut Reader<'_>) -> (part: Self)
        ensures
            (part, final(r)@) == LengthCounter::restored(old(r)@),
    {
        reveal(LengthCounter::restored);
        let counter: u8 = r.byte();
        let halt: bool = r.flag();
        let new_halt: bool = r.flag();
        let reload: u8 = r.byte();
        let previous: u8 = r.byte();
        LengthCounter { counter, halt, new_halt, reload, previous }
    }
}

pub broadcast proof fn lemma_length_counter_read(part: LengthCounter, rest: Seq<u8>)
    ensures
        #[trigger] LengthCounter::restored(Tape::at(part.saved(rest))) == (part, Tape::at(rest)),
{
    broadcast use group_read_back;

    reveal(LengthCounter::saved);
    reveal(LengthCounter::restored);
}

impl Envelope {
    /// An envelope, then `rest`.
    #[verifier::opaque]
    pub open spec fn saved(self, rest: Seq<u8>) -> Seq<u8> {
        let rest = put_u8(self.decay, rest);
        let rest = put_u8(self.divider, rest);
        let rest = put_bool(self.start, rest);
        let rest = put_u8(self.volume, rest);
        let rest = put_bool(self.constant, rest);
        put_bool(self.looping, rest)
    }

    #[verifier::opaque]
    pub open spec fn restored(t: Tape) -> (Envelope, Tape) {
        let (looping, t) = t.flag();
        let (constant, t) = t.flag();
        let (volume, t) = t.byte();
        let (start, t) = t.flag();
        let (divider, t) = t.byte();
        let (decay, t) = t.byte();
        (Envelope { looping, constant, volume, start, divider, decay }, t)
    }

    pub fn save(&self, w: &mut Writer)
        ensures
            forall|rest: Seq<u8>| #[trigger] (final(w)@ + rest) == old(w)@ + self.saved(rest),
    {
        reveal(Envelope::saved);
        w.flag(self.looping);
        w.flag(self.constant);
        w.byte(self.volume);
        w.flag(self.start);
        w.byte(self.divider);
        w.byte(self.decay);
    }

    pub fn restore(r: &mut Reader<'_>) -> (part: Self)
        ensures
            (part, final(r)@) == Envelope::restored(old(r)@),
    {
        reveal(Envelope::restored);
        let looping: bool = r.flag();
        let constant: bool = r.flag();
        let volume: u8 = r.byte();
        let start: bool = r.flag();
        let divider: u8 = r.byte();
        let decay: u8 = r.byte();
        Envelope { looping, constant, volume, start, divider, decay }
    }
}

pub broadcast proof fn lemma_envelope_read(part: Envelope, rest: Seq<u8>)
    ensures
        #[trigger] Envelope::restored(Tape::at(part.saved(rest))) == (part, Tape::at(rest)),
{
    broadcast use group_read_back;

    reveal(Envelope::saved);
    reveal(Envelope::restored);
}

impl Pulse {
    /// A pulse channel, then `rest`.
    #[verifier::opaque]
    pub open spec fn saved(self, rest: Seq<u8>) -> Seq<u8> {
        let rest = put_u8(self.seq, rest);
        let rest = put_number(self.cnt as nat, rest);
        let rest = put_number(self.timer_period as nat, rest);
        let rest = put_u8(self.sweep_divider, rest);
        let rest = put_bool(self.sweep_reload, rest);
        let rest = put_u8(self.sweep_shift, rest);
        let rest = put_bool(self.sweep_negate, rest);
        let rest = put_u8(self.sweep_period, rest);
        let rest = put_bool(self.sweep_enabled, rest);
        let rest = self.length.saved(rest);
        let rest = self.envelope.saved(rest);
        let rest = put_u8(self.duty, rest);
        let rest = put_bool(self.enabled, rest);
        put_bool(self.ones_complement, rest)
    }

    #[verifier::opaque]
    pub open spec fn restored(t: Tape) -> (Pulse, Tape) {
        let (ones_complement, t) = t.flag();
        let (enabled, t) = t.flag();
        let (duty, t) = t.byte();
        let (envelope, t) = Envelope::restored(t);
        let (length, t) = LengthCounter::restored(t);
        let (sweep_enabled, t) = t.flag();
        let (sweep_period, t) = t.byte();
        let (sweep_negate, t) = t.flag();
        let (sweep_shift, t) = t.byte();
        let (sweep_reload, t) = t.flag();
        let (sweep_divider, t) = t.byte();
        let (timer_period, t) = t.word();
        let (cnt, t) = t.long();
        let (seq, t) = t.byte();
        (
            Pulse {
                ones_complement,
                enabled,
                duty,
                envelope,
                length,
                sweep_enabled,
                sweep_period,
                sweep_negate,
                sweep_shift,
                sweep_reload,
                sweep_divider,
                timer_period,
                cnt,
                seq,
            },
            t,
        )
    }

    pub fn save(&self, w: &mut Writer)
        ensures
            forall|rest: Seq<u8>| #[trigger] (final(w)@ + rest) == old(w)@ + self.saved(rest),
    {
        reveal(Pulse::saved);
        w.flag(self.ones_complement);
        w.flag(self.enabled);
        w.byte(self.duty);
        self.envelope.save(w);
        self.length.save(w);
        w.flag(self.sweep_enabled);
        w.byte(self.sweep_period);
        w.flag(self.sweep_negate);
        w.byte(self.sweep_shift);
        w.flag(self.sweep_reload);
        w.byte(self.sweep_divider);
        w.word(self.timer_period);
        w.long(self.cnt);
        w.byte(self.seq);
    }

    pub fn restore(r: &mut Reader<'_>) -> (part: Self)
        ensures
            (part, final(r)@) == Pulse::restored(old(r)@),
    {
        reveal(Pulse::restored);
        let ones_complement: bool = r.flag();
        let enabled: bool = r.flag();
        let duty: u8 = r.byte();
        let envelope: Envelope = Envelope::restore(r);
        let length: LengthCounter = LengthCounter::restore(r);
        let sweep_enabled: bool = r.flag();
        let sweep_period: u8 = r.byte();
        let sweep_negate: bool = r.flag();
        let sweep_shift: u8 = r.byte();
        let sweep_reload: bool = r.flag();
        let sweep_divider: u8 = r.byte();
        let timer_period: u16 = r.word();
        let cnt: u32 = r.long();
        let seq: u8 = r.byte();
        Pulse {
            ones_complement,
            enabled,
            duty,
            envelope,
            length,
            sweep_enabled,
            sweep_period,
            sweep_negate,
            sweep_shift,
            sweep_reload,
            sweep_divider,
            timer_period,
            cnt,
            seq,
        }
    }
}

pub broadcast proof fn lemma_pulse_read(part: Pulse, rest: Seq<u8>)
    ensures
        #[trigger] Pulse::restored(Tape::at(part.saved(rest))) == (part, Tape::at(rest)),
{
    broadcast use group_read_back;
    broadcast use {lemma_envelope_read, lemma_length_counter_read};

    reveal(Pulse::saved);
    reveal(Pulse::restored);
}

impl Triangle {
    /// The triangle channel, then `rest`.
    #[verifier::opaque]
    pub open spec fn saved(self, rest: Seq<u8>) -> Seq<u8> {
        let rest = put_u8(self.seq, rest);
        let rest = put_number(self.cnt as nat, rest);
        let rest = put_number(self.timer_period as nat, rest);
        let rest = self.length.saved(rest);
        let rest = put_bool(self.linear_reload_flag, rest);
        let rest = put_u8(self.linear_counter, rest);
        let rest = put_u8(self.linear_reload_value, rest);
        let rest = put_bool(self.control, rest);
        put_bool(self.enabled, rest)
    }

    #[verifier::opaque]
    pub open spec fn restored(t: Tape) -> (Triangle, Tape) {
        let (enabled, t) = t.flag();
        let (control, t) = t.flag();
        let (linear_reload_value, t) = t.byte();
        let (linear_counter, t) = t.byte();
        let (linear_reload_flag, t) = t.flag();
        let (length, t) = LengthCounter::restored(t);
        let (timer_period, t) = t.word();
        let (cnt, t) = t.long();
        let (seq, t) = t.byte();
        (
            Triangle {
                enabled,
                control,
                linear_reload_value,
                linear_counter,
                linear_reload_flag,
                length,
                timer_period,
                cnt,
                seq,
            },
            t,
        )
    }

    pub fn save(&self, w: &mut Writer)
        ensures
            forall|rest: Seq<u8>| #[trigger] (final(w)@ + rest) == old(w)@ + self.saved(rest),
    {
        reveal(Triangle::saved);
        w.flag(self.enabled);
        w.flag(self.control);
        w.byte(self.linear_reload_value);
        w.byte(self.linear_counter);
        w.flag(self.linear_reload_flag);
        self.length.save(w);
        w.word(self.timer_period);
        w.long(self.cnt);
        w.byte(self.seq);
    }

    pub fn restore(r: &mut Reader<'_>) -> (part: Self)
        ensures
            (part, final(r)@) == Triangle::restored(old(r)@),
    {
        reveal(Triangle::restored);
        let enabled: bool = r.flag();
        let control: bool = r.flag();
        let linear_reload_value: u8 = r.byte();
        let linear_counter: u8 = r.byte();
        let linear_reload_flag: bool = r.flag();
        let length: LengthCounter = LengthCounter::restore(r);
        let timer_period: u16 = r.word();
        let cnt: u32 = r.long();
        let seq: u8 = r.byte();
        Triangle {
            enabled,
            control,
            linear_reload_value,
            linear_counter,
            linear_reload_flag,
            length,
            timer_period,
            cnt,
            seq,
        }
    }
}

pub broadcast proof fn lemma_triangle_read(part: Triangle, rest: Seq<u8>)
    ensures
        #[trigger] Triangle::restored(Tape::at(part.saved(rest))) == (part, Tape::at(rest)),
{
    broadcast use group_read_back;
    broadcast use lemma_length_counter_read;

    reveal(Triangle::saved);
    reveal(Triangle::restored);
}

impl Noise {
    /// The noise channel, then `rest`.
    #[verifier::opaque]
    pub open spec fn saved(self, rest: Seq<u8>) -> Seq<u8> {
        let rest = put_number(self.shift as nat, rest);
        let rest = put_number(self.cnt as nat, rest);
        let rest = put_u8(self.period_index, rest);
        let rest = put_bool(self.mode, rest);
        let rest = self.length.saved(rest);
        let rest = self.envelope.saved(rest);
        put_bool(self.enabled, rest)
    }

    #[verifier::opaque]
    pub open spec fn restored(t: Tape) -> (Noise, Tape) {
        let (enabled, t) = t.flag();
        let (envelope, t) = Envelope::restored(t);
        let (length, t) = LengthCounter::restored(t);
        let (mode, t) = t.flag();
        let (period_index, t) = t.byte();
        let (cnt, t) = t.long();
        let (shift, t) = t.word();
        (Noise { enabled, envelope, length, mode, period_index, cnt, shift }, t)
    }

    pub fn save(&self, w: &mut Writer)
        ensures
            forall|rest: Seq<u8>| #[trigger] (final(w)@ + rest) == old(w)@ + self.saved(rest),
    {
        reveal(Noise::saved);
        w.flag(self.enabled);
        self.envelope.save(w);
        self.length.save(w);
        w.flag(self.mode);
        w.byte(self.period_index);
        w.long(self.cnt);
        w.word(self.shift);
    }

    pub fn restore(r: &mut Reader<'_>) -> (part: Self)
        ensures
            (part, final(r)@) == Noise::restored(old(r)@),
    {
        reveal(Noise::restored);
        let enabled: bool = r.flag();
        let envelope: Envelope = Envelope::restore(r);
        let length: LengthCounter = LengthCounter::restore(r);
        let mode: bool = r.flag();
        let period_index: u8 = r.byte();
        let cnt: u32 = r.long();
        let shift: u16 = r.word();
        Noise { enabled, envelope, length, mode, period_index, cnt, shift }
    }
}

pub broadcast proof fn lemma_noise_read(part: Noise, rest: Seq<u8>)
    ensures
        #[trigger] Noise::restored(Tape::at(part.saved(rest))) == (part, Tape::at(rest)),
{
    broadcast use group_read_back;
    broadcast use {lemma_envelope_read, lemma_length_counter_read};

    reveal(Noise::saved);
    reveal(Noise::restored);
}

impl Dmc {
    /// The sample channel, then `rest`.
    #[verifier::opaque]
    pub open spec fn saved(self, rest: Seq<u8>) -> Seq<u8> {
        let rest = put_u8(self.start_delay, rest);
        let rest = put_bool(self.irq_flag, rest);
        let rest = put_u8(self.output_level, rest);
        let rest = put_bool(self.silence, rest);
        let rest = put_u8(self.bits_remaining, rest);
        let rest = put_u8(self.shift_register, rest);
        let rest = put_bool(self.buffer_empty, rest);
        let rest = put_u8(self.read_buffer, rest);
        let rest = put_number(self.bytes_remaining as nat, rest);
        let rest = put_number(self.current_addr as nat, rest);
        let rest = put_number(self.sample_length as nat, rest);
        let rest = put_number(self.sample_addr as nat, rest);
        let rest = put_number(self.cnt as nat, rest);
        let rest = put_u8(self.rate_index, rest);
        let rest = put_bool(self.looping, rest);
        put_bool(self.irq_enabled, rest)
    }

    #[verifier::opaque]
    pub open spec fn restored(t: Tape) -> (Dmc, Tape) {
        let (irq_enabled, t) = t.flag();
        let (looping, t) = t.flag();
        let (rate_index, t) = t.byte();
        let (cnt, t) = t.long();
        let (sample_addr, t) = t.word();
        let (sample_length, t) = t.word();
        let (current_addr, t) = t.word();
        let (bytes_remaining, t) = t.word();
        let (read_buffer, t) = t.byte();
        let (buffer_empty, t) = t.flag();
        let (shift_register, t) = t.byte();
        let (bits_remaining, t) = t.byte();
        let (silence, t) = t.flag();
        let (output_level, t) = t.byte();
        let (irq_flag, t) = t.flag();
        let (start_delay, t) = t.byte();
        (
            Dmc {
                irq_enabled,
                looping,
                rate_index,
                cnt,
                sample_addr,
                sample_length,
                current_addr,
                bytes_remaining,
                read_buffer,
                buffer_empty,
                shift_register,
                bits_remaining,
                silence,
                output_level,
                irq_flag,
                start_delay,
            },
            t,
        )
    }

    pub fn save(&self, w: &mut Writer)
        ensures
            forall|rest: Seq<u8>| #[trigger] (final(w)@ + rest) == old(w)@ + self.saved(rest),
    {
        reveal(Dmc::saved);
        w.flag(self.irq_enabled);
        w.flag(self.looping);
        w.byte(self.rate_index);
        w.long(self.cnt);
        w.word(self.sample_addr);
        w.word(self.sample_length);
        w.word(self.current_addr);
        w.word(self.bytes_remaining);
        w.byte(self.read_buffer);
        w.flag(self.buffer_empty);
        w.byte(self.shift_register);
        w.byte(self.bits_remaining);
        w.flag(self.silence);
        w.byte(self.output_level);
        w.flag(self.irq_flag);
        w.byte(self.start_delay);
    }

    pub fn restore(r: &mut Reader<'_>) -> (part: Self)
        ensures
            (part, final(r)@) == Dmc::restored(old(r)@),
    {
        reveal(Dmc::restored);
        let irq_enabled: bool = r.flag();
        let looping: bool = r.flag();
        let rate_index: u8 = r.byte();
        let cnt: u32 = r.long();
        let sample_addr: u16 = r.word();
        let sample_length: u16 = r.word();
        let current_addr: u16 = r.word();
        let bytes_remaining: u16 = r.word();
        let read_buffer: u8 = r.byte();
        let buffer_empty: bool = r.flag();
        let shift_register: u8 = r.byte();
        let bits_remaining: u8 = r.byte();
        let silence: bool = r.flag();
        let output_level: u8 = r.byte();
        let irq_flag: bool = r.flag();
        let start_delay: u8 = r.byte();
        Dmc {
            irq_enabled,
            looping,
            rate_index,
            cnt,
            sample_addr,
            sample_length,
            current_addr,
            bytes_remaining,
            read_buffer,
            buffer_empty,
            shift_register,
            bits_remaining,
            silence,
            output_level,
            irq_flag,
            start_delay,
        }
    }
}

pub broadcast proof fn lemma_dmc_read(part: Dmc, rest: Seq<u8>)
    ensures
        #[trigger] Dmc::restored(Tape::at(part.saved(rest))) == (part, Tape::at(rest)),
{
    broadcast use group_read_back;

    reveal(Dmc::saved);
    reveal(Dmc::restored);
}

impl FrameCounter {
    /// The frame counter, then `rest`.
    #[verifier::opaque]
    pub open spec fn saved(self, rest: Seq<u8>) -> Seq<u8> {
        let rest = put_u8(self.block, rest);
        let rest = put_bool(self.new_mode5, rest);
        let rest = put_u8(self.write_delay, rest);
        let rest = put_number(self.cycle as nat, rest);
        let rest = put_u8(self.step, rest);
        let rest = put_bool(self.inhibit_irq, rest);
        put_bool(self.mode5, rest)
    }

    #[verifier::opaque]
    pub open spec fn restored(t: Tape) -> (FrameCounter, Tape) {
        let (mode5, t) = t.flag();
        let (inhibit_irq, t) = t.flag();
        let (step, t) = t.byte();
        let (cycle, t) = t.long();
        let (write_delay, t) = t.byte();
        let (new_mode5, t) = t.flag();
        let (block, t) = t.byte();
        (FrameCounter { mode5, inhibit_irq, step, cycle, write_delay, new_mode5, block }, t)
    }

    pub fn save(&self, w: &mut Writer)
        ensures
            forall|rest: Seq<u8>| #[trigger] (final(w)@ + rest) == old(w)@ + self.saved(rest),
    {
        reveal(FrameCounter::saved);
        w.flag(self.mode5);
        w.flag(self.inhibit_irq);
        w.byte(self.step);
        w.long(self.cycle);
        w.byte(self.write_delay);
        w.flag(self.new_mode5);
        w.byte(self.block);
    }

    pub fn restore(r: &mut Reader<'_>) -> (part: Self)
        ensures
            (part, final(r)@) == FrameCounter::restored(old(r)@),
    {
        reveal(FrameCounter::restored);
        let mode5: bool = r.flag();
        let inhibit_irq: bool = r.flag();
        let step: u8 = r.byte();
        let cycle: u32 = r.long();
        let write_delay: u8 = r.byte();
        let new_mode5: bool = r.flag();
        let block: u8 = r.byte();
        FrameCounter { mode5, inhibit_irq, step, cycle, write_delay, new_mode5, block }
    }
}

pub broadcast proof fn lemma_frame_counter_read(part: FrameCounter, rest: Seq<u8>)
    ensures
        #[trigger] FrameCounter::restored(Tape::at(part.saved(rest))) == (part, Tape::at(rest)),
{
    broadcast use group_read_back;

    reveal(FrameCounter::saved);
    reveal(FrameCounter::restored);
}

impl ApuCore {
    /// The audio unit without its output, then `rest`.
    #[verifier::opaque]
    pub open spec fn saved(self, rest: Seq<u8>) -> Seq<u8> {
        let rest = put_number(self.dmc_stall as nat, rest);
        let rest = put_u8(self.ahead, rest);
        let rest = put_number(self.cycles as nat, rest);
        let rest = put_bool(self.frame_irq, rest);
        let rest = self.frame.saved(rest);
        let rest = self.dmc.saved(rest);
        let rest = self.noise.saved(rest);
        let rest = self.triangle.saved(rest);
        let rest = self.pulse1.saved(rest);
        self.pulse0.saved(rest)
    }

    #[verifier::opaque]
    pub open spec fn restored(t: Tape) -> (ApuCore, Tape) {
        let (pulse0, t) = Pulse::restored(t);
        let (pulse1, t) = Pulse::restored(t);
        let (triangle, t) = Triangle::restored(t);
        let (noise, t) = Noise::restored(t);
        let (dmc, t) = Dmc::restored(t);
        let (frame, t) = FrameCounter::restored(t);
        let (frame_irq, t) = t.flag();
        let (cycles, t) = t.quad();
        let (ahead, t) = t.byte();
        let (dmc_stall, t) = t.long();
        (
            ApuCore {
                pulse0,
                pulse1,
                triangle,
                noise,
                dmc,
                frame,
                frame_irq,
                cycles,
                ahead,
                dmc_stall,
            },
            t,
        )
    }
}

impl Apu {
    pub fn save(&self, w: &mut Writer)
        ensures
            forall|rest: Seq<u8>| #[trigger] (final(w)@ + rest) == old(w)@ + self@.core.saved(rest),
    {
        reveal(ApuCore::saved);
        self.pulse[0].save(w);
        self.pulse[1].save(w);
        self.triangle.save(w);
        self.noise.save(w);
        self.dmc.save(w);
        self.frame.save(w);
        w.flag(self.frame_irq);
        w.quad(self.cycles);
        w.byte(self.ahead);
        w.long(self.dmc_stall);
    }

    /// Restores the unit, with nothing recorded and everything heard.
    pub fn restore(r: &mut Reader<'_>) -> (part: Self)
        ensures
            (part@.core, final(r)@) == ApuCore::restored(old(r)@),
            part@.out == AudioModel::fresh(),
    {
        reveal(ApuCore::restored);
        let pulse0: Pulse = Pulse::restore(r);
        let pulse1: Pulse = Pulse::restore(r);
        let triangle: Triangle = Triangle::restore(r);
        let noise: Noise = Noise::restore(r);
        let dmc: Dmc = Dmc::restore(r);
        let frame: FrameCounter = FrameCounter::restore(r);
        let frame_irq: bool = r.flag();
        let cycles: u64 = r.quad();
        let ahead: u8 = r.byte();
        let dmc_stall: u32 = r.long();
        Apu {
            pulse: [pulse0, pulse1],
            triangle,
            noise,
            dmc,
            frame,
            frame_irq,
            cycles,
            ahead,
            dmc_stall,
            out: AudioOut::default(),
        }
    }
}

pub broadcast proof fn lemma_apu_core_read(part: ApuCore, rest: Seq<u8>)
    ensures
        #[trigger] ApuCore::restored(Tape::at(part.saved(rest))) == (part, Tape::at(rest)),
{
    broadcast use group_read_back;
    broadcast use {
        lemma_pulse_read,
        lemma_triangle_read,
        lemma_noise_read,
        lemma_dmc_read,
        lemma_frame_counter_read,
    };

    reveal(ApuCore::saved);
    reveal(ApuCore::restored);
}

impl PpuModel {
    /// The picture unit without its picture, then `rest`.
    #[verifier::opaque]
    pub open spec fn saved(self, rest: Seq<u8>) -> Seq<u8> {
        let rest = put_u8(self.prefetch_incs, rest);
        let rest = put_bool(self.overflow_pending, rest);
        let rest = put_number(self.sprite0_hit_dot as nat, rest);
        let rest = put_bool(self.frame_done, rest);
        let rest = put_bool(self.nmi_delay, rest);
        let rest = put_bool(self.nmi_pending, rest);
        let rest = put_bool(self.nmi_line, rest);
        let rest = put_bool(self.odd_frame, rest);
        let rest = put_number(self.frame as nat, rest);
        let rest = put_number(self.cycle as nat, rest);
        let rest = put_number(self.scanline as nat, rest);
        let rest = put_raw(self.palette, rest);
        let rest = put_block(self.vram, rest);
        let rest = put_block(self.oam, rest);
        let rest = put_u8(self.io_latch, rest);
        let rest = put_u8(self.data_buffer, rest);
        let rest = put_bool(self.w, rest);
        let rest = put_u8(self.fine_x, rest);
        let rest = put_number(self.t as nat, rest);
        let rest = put_number(self.v as nat, rest);
        let rest = put_u8(self.oam_addr, rest);
        let rest = put_u8(self.status, rest);
        let rest = put_u8(self.mask, rest);
        put_u8(self.ctrl, rest)
    }

    #[verifier::opaque]
    pub open spec fn restored(tape: Tape) -> (PpuModel, Tape) {
        let (ctrl, tape) = tape.byte();
        let (mask, tape) = tape.byte();
        let (status, tape) = tape.byte();
        let (oam_addr, tape) = tape.byte();
        let (v, tape) = tape.word();
        let (t, tape) = tape.word();
        let (fine_x, tape) = tape.byte();
        let (w, tape) = tape.flag();
        let (data_buffer, tape) = tape.byte();
        let (io_latch, tape) = tape.byte();
        let (oam, tape) = tape.block();
        let (vram, tape) = tape.block();
        let (palette, tape) = tape.array32();
        let (scanline, tape) = tape.word();
        let (cycle, tape) = tape.word();
        let (frame, tape) = tape.quad();
        let (odd_frame, tape) = tape.flag();
        let (nmi_line, tape) = tape.flag();
        let (nmi_pending, tape) = tape.flag();
        let (nmi_delay, tape) = tape.flag();
        let (frame_done, tape) = tape.flag();
        let (sprite0_hit_dot, tape) = tape.word();
        let (overflow_pending, tape) = tape.flag();
        let (prefetch_incs, tape) = tape.byte();
        (
            PpuModel {
                ctrl,
                mask,
                status,
                oam_addr,
                v,
                t,
                fine_x,
                w,
                data_buffer,
                io_latch,
                oam,
                vram,
                palette,
                scanline,
                cycle,
                frame,
                odd_frame,
                nmi_line,
                nmi_pending,
                nmi_delay,
                frame_done,
                sprite0_hit_dot,
                overflow_pending,
                prefetch_incs,
                screen: blank_picture(),
                output_enabled: true,
            },
            tape,
        )
    }
}

impl Ppu {
    pub fn save(&self, w: &mut Writer)
        ensures
            forall|rest: Seq<u8>| #[trigger] (final(w)@ + rest) == old(w)@ + self@.saved(rest),
    {
        reveal(PpuModel::saved);
        w.byte(self.ctrl);
        w.byte(self.mask);
        w.byte(self.status);
        w.byte(self.oam_addr);
        w.word(self.v);
        w.word(self.t);
        w.byte(self.fine_x);
        w.flag(self.w);
        w.byte(self.data_buffer);
        w.byte(self.io_latch);
        w.block(self.oam.as_slice());
        w.block(self.vram.as_slice());
        w.raw(self.palette.as_slice());
        w.word(self.scanline);
        w.word(self.cycle);
        w.quad(self.frame);
        w.flag(self.odd_frame);
        w.flag(self.nmi_line);
        w.flag(self.nmi_pending);
        w.flag(self.nmi_delay);
        w.flag(self.frame_done);
        w.word(self.sprite0_hit_dot);
        w.flag(self.overflow_pending);
        w.byte(self.prefetch_incs);
    }

    /// Restores the unit, with a blank picture.
    pub fn restore(r: &mut Reader<'_>) -> (part: Self)
        ensures
            (part@, final(r)@) == PpuModel::restored(old(r)@),
    {
        reveal(PpuModel::restored);
        let ctrl: u8 = r.byte();
        let mask: u8 = r.byte();
        let status: u8 = r.byte();
        let oam_addr: u8 = r.byte();
        let v: u16 = r.word();
        let t: u16 = r.word();
        let fine_x: u8 = r.byte();
        let w: bool = r.flag();
        let data_buffer: u8 = r.byte();
        let io_latch: u8 = r.byte();
        let oam: Vec<u8> = r.block();
        let vram: Vec<u8> = r.block();
        let palette: [u8; 32] = r.array32();
        let scanline: u16 = r.word();
        let cycle: u16 = r.word();
        let frame: u64 = r.quad();
        let odd_frame: bool = r.flag();
        let nmi_line: bool = r.flag();
        let nmi_pending: bool = r.flag();
        let nmi_delay: bool = r.flag();
        let frame_done: bool = r.flag();
        let sprite0_hit_dot: u16 = r.word();
        let overflow_pending: bool = r.flag();
        let prefetch_incs: u8 = r.byte();
        Ppu {
            ctrl,
            mask,
            status,
            oam_addr,
            v,
            t,
            fine_x,
            w,
            data_buffer,
            io_latch,
            oam,
            vram,
            palette,
            scanline,
            cycle,
            frame,
            odd_frame,
            nmi_line,
            nmi_pending,
            nmi_delay,
            frame_done,
            sprite0_hit_dot,
            overflow_pending,
            prefetch_incs,
            frame_buffer: FrameBuffer::blank(),
            output_enabled: true,
        }
    }
}

pub broadcast proof fn lemma_ppu_model_read(part: PpuModel, rest: Seq<u8>)
    requires
        part.oam.len() <= u64::MAX,
        part.vram.len() <= u64::MAX,
        part.palette.len() == 32,
    ensures
        #[trigger] PpuModel::restored(Tape::at(part.saved(rest))) == (
            PpuModel { screen: blank_picture(), output_enabled: true, ..part },
            Tape::at(rest),
        ),
{
    broadcast use group_read_back;

    reveal(PpuModel::saved);
    reveal(PpuModel::restored);
}

/// The number of a mirroring.
pub open spec fn mirroring_number(m: Mirroring) -> u32 {
    match m {
        Mirroring::Horizontal => 0,
        Mirroring::Vertical => 1,
        Mirroring::FourScreen => 2,
        Mirroring::SingleScreenLower => 3,
        Mirroring::SingleScreenUpper => 4,
    }
}

impl Mirroring {
    /// A mirroring, as its number, then `rest`.
    #[verifier::opaque]
    pub open spec fn saved(self, rest: Seq<u8>) -> Seq<u8> {
        put_number(mirroring_number(self) as nat, rest)
    }

    #[verifier::opaque]
    pub open spec fn restored(t: Tape) -> (Mirroring, Tape) {
        let (n, t) = t.long();
        (
            if n == 1 {
                Mirroring::Vertical
            } else if n == 2 {
                Mirroring::FourScreen
            } else if n == 3 {
                Mirroring::SingleScreenLower
            } else if n == 4 {
                Mirroring::SingleScreenUpper
            } else {
                Mirroring::Horizontal
            },
            t.kept_if(n <= 4, DecodeError::BadTag),
        )
    }

    pub fn save(&self, w: &mut Writer)
        ensures
            forall|rest: Seq<u8>| #[trigger] (final(w)@ + rest) == old(w)@ + self.saved(rest),
    {
        reveal(Mirroring::saved);
        let n: u32 = match self {
            Mirroring::Horizontal => 0,
            Mirroring::Vertical => 1,
            Mirroring::FourScreen => 2,
            Mirroring::SingleScreenLower => 3,
            Mirroring::SingleScreenUpper => 4,
        };
        w.long(n);
    }

    pub fn restore(r: &mut Reader<'_>) -> (part: Self)
        ensures
            (part, final(r)@) == Mirroring::restored(old(r)@),
    {
        reveal(Mirroring::restored);
        let n: u32 = r.long();
        if n > 4 {
            r.fail(DecodeError::BadTag);
        }
        match n {
            1 => Mirroring::Vertical,
            2 => Mirroring::FourScreen,
            3 => Mirroring::SingleScreenLower,
            4 => Mirroring::SingleScreenUpper,
            _ => Mirroring::Horizontal,
        }
    }
}

pub broadcast proof fn lemma_mirroring_read(part: Mirroring, rest: Seq<u8>)
    ensures
        #[trigger] Mirroring::restored(Tape::at(part.saved(rest))) == (part, Tape::at(rest)),
{
    broadcast use group_read_back;

    reveal(Mirroring::saved);
    reveal(Mirroring::restored);
}

impl RomInfo {
    /// What the header says, then `rest`.
    #[verifier::opaque]
    pub open spec fn saved(self, rest: Seq<u8>) -> Seq<u8> {
        let rest = put_bool(self.has_trainer, rest);
        let rest = put_bool(self.battery_backed, rest);
        let rest = self.mirroring.saved(rest);
        let rest = put_u8(self.mapper_id, rest);
        let rest = put_u8(self.chr_rom_banks, rest);
        put_u8(self.prg_rom_banks, rest)
    }

    #[verifier::opaque]
    pub open spec fn restored(t: Tape) -> (RomInfo, Tape) {
        let (prg_rom_banks, t) = t.byte();
        let (chr_rom_banks, t) = t.byte();
        let (mapper_id, t) = t.byte();
        let (mirroring, t) = Mirroring::restored(t);
        let (battery_backed, t) = t.flag();
        let (has_trainer, t) = t.flag();
        (
            RomInfo {
                prg_rom_banks,
                chr_rom_banks,
                mapper_id,
                mirroring,
                battery_backed,
                has_trainer,
            },
            t,
        )
    }

    pub fn save(&self, w: &mut Writer)
        ensures
            forall|rest: Seq<u8>| #[trigger] (final(w)@ + rest) == old(w)@ + self.saved(rest),
    {
        reveal(RomInfo::saved);
        w.byte(self.prg_rom_banks);
        w.byte(self.chr_rom_banks);
        w.byte(self.mapper_id);
        self.mirroring.save(w);
        w.flag(self.battery_backed);
        w.flag(self.has_trainer);
    }

    pub fn restore(r: &mut Reader<'_>) -> (part: Self)
        ensures
            (part, final(r)@) == RomInfo::restored(old(r)@),
    {
        reveal(RomInfo::restored);
        let prg_rom_banks: u8 = r.byte();
        let chr_rom_banks: u8 = r.byte();
        let mapper_id: u8 = r.byte();
        let mirroring: Mirroring = Mirroring::restore(r);
        let battery_backed: bool = r.flag();
        let has_trainer: bool = r.flag();
        RomInfo {
            prg_rom_banks,
            chr_rom_banks,
            mapper_id,
            mirroring,
            battery_backed,
            has_trainer,
        }
    }
}

pub broadcast proof fn lemma_rom_info_read(part: RomInfo, rest: Seq<u8>)
    ensures
        #[trigger] RomInfo::restored(Tape::at(part.saved(rest))) == (part, Tape::at(rest)),
{
    broadcast use group_read_back;
    broadcast use lemma_mirroring_read;

    reveal(RomInfo::saved);
    reveal(RomInfo::restored);
}

impl Mmc1 {
    /// The registers, then `rest`.
    #[verifier::opaque]
    pub open spec fn saved(self, rest: Seq<u8>) -> Seq<u8> {
        let rest = put_u8(self.prg, rest);
        let rest = put_u8(self.chr1, rest);
        let rest = put_u8(self.chr0, rest);
        let rest = put_u8(self.control, rest);
        let rest = put_u8(self.shift_count, rest);
        put_u8(self.shift, rest)
    }

    #[verifier::opaque]
    pub open spec fn restored(t: Tape) -> (Mmc1, Tape) {
        let (shift, t) = t.byte();
        let (shift_count, t) = t.byte();
        let (control, t) = t.byte();
        let (chr0, t) = t.byte();
        let (chr1, t) = t.byte();
        let (prg, t) = t.byte();
        (Mmc1 { shift, shift_count, control, chr0, chr1, prg }, t)
    }

    pub fn save(&self, w: &mut Writer)
        ensures
            forall|rest: Seq<u8>| #[trigger] (final(w)@ + rest) == old(w)@ + self.saved(rest),
    {
        reveal(Mmc1::saved);
        w.byte(self.shift);
        w.byte(self.shift_count);
        w.byte(self.control);
        w.byte(self.chr0);
        w.byte(self.chr1);
        w.byte(self.prg);
    }

    pub fn restore(r: &mut Reader<'_>) -> (part: Self)
        ensures
            (part, final(r)@) == Mmc1::restored(old(r)@),
    {
        reveal(Mmc1::restored);
        let shift: u8 = r.byte();
        let shift_count: u8 = r.byte();
        let control: u8 = r.byte();
        let chr0: u8 = r.byte();
        let chr1: u8 = r.byte();
        let prg: u8 = r.byte();
        Mmc1 { shift, shift_count, control, chr0, chr1, prg }
    }
}

pub broadcast proof fn lemma_mmc1_read(part: Mmc1, rest: Seq<u8>)
    ensures
        #[trigger] Mmc1::restored(Tape::at(part.saved(rest))) == (part, Tape::at(rest)),
{
    broadcast use group_read_back;

    reveal(Mmc1::saved);
    reveal(Mmc1::restored);
}

/// The number of a mapper's variant.
pub open spec fn mapper_number(m: Mapper) -> u32 {
    match m {
        Mapper::Nrom(_) => 0,
        Mapper::Mmc1(_) => 1,
        Mapper::Uxrom(_) => 2,
        Mapper::Cnrom(_) => 3,
    }
}

impl Mapper {
    /// A mapper: its variant's number and its registers, then `rest`.
    #[verifier::opaque]
    pub open spec fn saved(self, rest: Seq<u8>) -> Seq<u8> {
        let registers = match self {
            Mapper::Nrom(m) => put_u8(m.prg_banks, rest),
            Mapper::Mmc1(m) => m.saved(rest),
            Mapper::Uxrom(m) => put_u8(m.bank, rest),
            Mapper::Cnrom(m) => put_u8(m.chr_bank, rest),
        };
        put_number(mapper_number(self) as nat, registers)
    }

    #[verifier::opaque]
    pub open spec fn restored(t: Tape) -> (Mapper, Tape) {
        let (n, t) = t.long();
        if n == 1 {
            let (m, t) = Mmc1::restored(t);
            (Mapper::Mmc1(m), t)
        } else if n == 2 {
            let (bank, t) = t.byte();
            (Mapper::Uxrom(Uxrom { bank }), t)
        } else if n == 3 {
            let (chr_bank, t) = t.byte();
            (Mapper::Cnrom(Cnrom { chr_bank }), t)
        } else {
            let (prg_banks, t) = t.kept_if(n == 0, DecodeError::BadTag).byte();
            (Mapper::Nrom(Nrom { prg_banks }), t)
        }
    }

    pub fn save(&self, w: &mut Writer)
        ensures
            forall|rest: Seq<u8>| #[trigger] (final(w)@ + rest) == old(w)@ + self.saved(rest),
    {
        reveal(Mapper::saved);
        match self {
            Mapper::Nrom(m) => {
                w.long(0);
                w.byte(m.prg_banks);
            },
            Mapper::Mmc1(m) => {
                w.long(1);
                m.save(w);
            },
            Mapper::Uxrom(m) => {
                w.long(2);
                w.byte(m.bank);
            },
            Mapper::Cnrom(m) => {
                w.long(3);
                w.byte(m.chr_bank);
            },
        }
    }

    pub fn restore(r: &mut Reader<'_>) -> (part: Self)
        ensures
            (part, final(r)@) == Mapper::restored(old(r)@),
    {
        reveal(Mapper::restored);
        let n: u32 = r.long();
        match n {
            1 => Mapper::Mmc1(Mmc1::restore(r)),
            2 => Mapper::Uxrom(Uxrom { bank: r.byte() }),
            3 => Mapper::Cnrom(Cnrom { chr_bank: r.byte() }),
            _ => {
                if n != 0 {
                    r.fail(DecodeError::BadTag);
                }
                let prg_banks: u8 = r.byte();
                Mapper::Nrom(Nrom { prg_banks })
            },
        }
    }
}

pub broadcast proof fn lemma_mapper_read(part: Mapper, rest: Seq<u8>)
    ensures
        #[trigger] Mapper::restored(Tape::at(part.saved(rest))) == (part, Tape::at(rest)),
{
    broadcast use group_read_back;
    broadcast use lemma_mmc1_read;

    reveal(Mapper::saved);
    reveal(Mapper::restored);
}

impl RomId {
    /// The upper and the lower half, then `rest`.
    #[verifier::opaque]
    pub open spec fn saved(self, rest: Seq<u8>) -> Seq<u8> {
        let rest = put_number(self.low() as nat, rest);
        put_number(self.high() as nat, rest)
    }

    #[verifier::opaque]
    pub open spec fn restored(t: Tape) -> (RomId, Tape) {
        let (high, t) = t.quad();
        let (low, t) = t.quad();
        (RomId { hash: (high * 0x1_0000_0000_0000_0000 + low) as u128 }, t)
    }

    pub fn save(&self, w: &mut Writer)
        ensures
            forall|rest: Seq<u8>| #[trigger] (final(w)@ + rest) == old(w)@ + self.saved(rest),
    {
        reveal(RomId::saved);
        w.quad((self.hash / 0x1_0000_0000_0000_0000) as u64);
        w.quad((self.hash % 0x1_0000_0000_0000_0000) as u64);
    }

    pub fn restore(r: &mut Reader<'_>) -> (part: Self)
        ensures
            (part, final(r)@) == RomId::restored(old(r)@),
    {
        reveal(RomId::restored);
        let high: u64 = r.quad();
        let low: u64 = r.quad();
        RomId { hash: high as u128 * 0x1_0000_0000_0000_0000 + low as u128 }
    }
}

pub broadcast proof fn lemma_rom_id_read(part: RomId, rest: Seq<u8>)
    ensures
        #[trigger] RomId::restored(Tape::at(part.saved(rest))) == (part, Tape::at(rest)),
{
    broadcast use group_read_back;

    reveal(RomId::saved);
    reveal(RomId::restored);
}

impl CartModel {
    /// A cartridge without its ROM, then `rest`.
    #[verifier::opaque]
    pub open spec fn saved(self, rest: Seq<u8>) -> Seq<u8> {
        let rest = self.rom_id.saved(rest);
        let rest = self.mapper.saved(rest);
        let rest = put_block(self.prg_ram, rest);
        let rest = put_block(self.chr_ram, rest);
        self.info.saved(rest)
    }

    #[verifier::opaque]
    pub open spec fn restored(t: Tape) -> (CartModel, Tape) {
        let (info, t) = RomInfo::restored(t);
        let (chr_ram, t) = t.block();
        let (prg_ram, t) = t.block();
        let (mapper, t) = Mapper::restored(t);
        let (rom_id, t) = RomId::restored(t);
        (
            CartModel {
                info,
                prg_rom: Seq::empty(),
                chr_rom: Seq::empty(),
                chr_ram,
                prg_ram,
                mapper,
                rom_id,
            },
            t,
        )
    }
}

impl Cartridge {
    pub fn save(&self, w: &mut Writer)
        ensures
            forall|rest: Seq<u8>| #[trigger] (final(w)@ + rest) == old(w)@ + self@.saved(rest),
    {
        reveal(CartModel::saved);
        self.info.save(w);
        w.block(self.chr_ram.as_slice());
        w.block(self.prg_ram.as_slice());
        self.mapper.save(w);
        self.rom_id.save(w);
    }

    /// Restores the cartridge, with no ROM in it.
    pub fn restore(r: &mut Reader<'_>) -> (part: Self)
        ensures
            (part@, final(r)@) == CartModel::restored(old(r)@),
    {
        reveal(CartModel::restored);
        let info: RomInfo = RomInfo::restore(r);
        let chr_ram: Vec<u8> = r.block();
        let prg_ram: Vec<u8> = r.block();
        let mapper: Mapper = Mapper::restore(r);
        let rom_id: RomId = RomId::restore(r);
        let prg_rom: Vec<u8> = Vec::new();
        let chr_rom: Vec<u8> = Vec::new();
        assert(prg_rom@ =~= Seq::<u8>::empty());
        assert(chr_rom@ =~= Seq::<u8>::empty());
        Cartridge { info, prg_rom, chr_rom, chr_ram, prg_ram, mapper, rom_id }
    }
}

pub broadcast proof fn lemma_cart_model_read(part: CartModel, rest: Seq<u8>)
    requires
        part.chr_ram.len() <= u64::MAX,
        part.prg_ram.len() <= u64::MAX,
    ensures
        #[trigger] CartModel::restored(Tape::at(part.saved(rest))) == (
            CartModel { prg_rom: Seq::empty(), chr_rom: Seq::empty(), ..part },
            Tape::at(rest),
        ),
{
    broadcast use group_read_back;
    broadcast use {lemma_rom_info_read, lemma_mapper_read, lemma_rom_id_read};

    reveal(CartModel::saved);
    reveal(CartModel::restored);
}

impl Joypad {
    /// A controller, then `rest`.
    #[verifier::opaque]
    pub open spec fn saved(self, rest: Seq<u8>) -> Seq<u8> {
        let rest = put_u8(self.shift, rest);
        let rest = put_bool(self.strobe, rest);
        put_u8(self.state.raw, rest)
    }

    #[verifier::opaque]
    pub open spec fn restored(t: Tape) -> (Joypad, Tape) {
        let (raw, t) = t.byte();
        let (strobe, t) = t.flag();
        let (shift, t) = t.byte();
        (Joypad { state: Buttons { raw }, strobe, shift }, t)
    }

    pub fn save(&self, w: &mut Writer)
        ensures
            forall|rest: Seq<u8>| #[trigger] (final(w)@ + rest) == old(w)@ + self.saved(rest),
    {
        reveal(Joypad::saved);
        w.byte(self.state.bits());
        w.flag(self.strobe);
        w.byte(self.shift);
    }

    pub fn restore(r: &mut Reader<'_>) -> (part: Self)
        ensures
            (part, final(r)@) == Joypad::restored(old(r)@),
    {
        reveal(Joypad::restored);
        let state: Buttons = Buttons::from_bits_truncate(r.byte());
        let strobe: bool = r.flag();
        let shift: u8 = r.byte();
        Joypad { state, strobe, shift }
    }
}

pub broadcast proof fn lemma_joypad_read(part: Joypad, rest: Seq<u8>)
    ensures
        #[trigger] Joypad::restored(Tape::at(part.saved(rest))) == (part, Tape::at(rest)),
{
    broadcast use group_read_back;

    reveal(Joypad::saved);
    reveal(Joypad::restored);
}

/// A byte or none: a flag, the byte where there is one, then `rest`.
pub open spec fn put_option(v: Option<u8>, rest: Seq<u8>) -> Seq<u8> {
    match v {
        None => put_bool(false, rest),
        Some(b) => put_bool(true, put_u8(b, rest)),
    }
}

/// A byte or none.
pub open spec fn option_restored(t: Tape) -> (Option<u8>, Tape) {
    let (some, t) = t.presence();
    if some {
        let (b, t) = t.byte();
        (Some(b), t)
    } else {
        (None, t)
    }
}

impl BusModel {
    /// The bus and what is attached to it, then `rest`.
    #[verifier::opaque]
    pub open spec fn saved(self, rest: Seq<u8>) -> Seq<u8> {
        let rest = put_option(self.pending_oam_dma, rest);
        let rest = put_u8(self.open_bus, rest);
        let rest = put_number(self.total_cycles as nat, rest);
        let rest = self.pad1.saved(rest);
        let rest = self.pad0.saved(rest);
        let rest = self.cart().saved(rest);
        let rest = self.apu().core.saved(rest);
        let rest = self.ppu().saved(rest);
        put_block(self.ram, rest)
    }

    #[verifier::opaque]
    pub open spec fn restored(t: Tape) -> (BusModel, Tape) {
        let (ram, t) = t.block();
        let (ppu, t) = PpuModel::restored(t);
        let (core, t) = ApuCore::restored(t);
        let (cart, t) = CartModel::restored(t);
        let (pad0, t) = Joypad::restored(t);
        let (pad1, t) = Joypad::restored(t);
        let (total_cycles, t) = t.quad();
        let (open_bus, t) = t.byte();
        let (pending_oam_dma, t) = option_restored(t);
        (
            BusModel {
                ram,
                units: (ppu, ApuModel { core, out: AudioModel::fresh() }, cart),
                pad0,
                pad1,
                total_cycles,
                open_bus,
                pending_oam_dma,
                flat_ram: Seq::empty(),
                access_log: Seq::empty(),
            },
            t,
        )
    }

    /// What a save state keeps of the machine: neither the ROM nor the output.
    pub open spec fn kept(self) -> BusModel {
        BusModel {
            units: (
                PpuModel { screen: blank_picture(), output_enabled: true, ..self.ppu() },
                ApuModel { core: self.apu().core, out: AudioModel::fresh() },
                CartModel { prg_rom: Seq::empty(), chr_rom: Seq::empty(), ..self.cart() },
            ),
            flat_ram: Seq::empty(),
            access_log: Seq::empty(),
            ..self
        }
    }

    /// The memories have the lengths of the hardware, which is all that saving asks for.
    pub open spec fn savable(self) -> bool {
        &&& self.ram.len() <= u64::MAX
        &&& self.ppu().oam.len() <= u64::MAX
        &&& self.ppu().vram.len() <= u64::MAX
        &&& self.ppu().palette.len() == 32
        &&& self.cart().chr_ram.len() <= u64::MAX
        &&& self.cart().prg_ram.len() <= u64::MAX
    }
}

pub broadcast proof fn lemma_bus_model_read(part: BusModel, rest: Seq<u8>)
    requires
        part.savable(),
    ensures
        #[trigger] BusModel::restored(Tape::at(part.saved(rest))) == (part.kept(), Tape::at(rest)),
{
    broadcast use group_read_back;
    broadcast use {
        lemma_ppu_model_read,
        lemma_apu_core_read,
        lemma_cart_model_read,
        lemma_joypad_read,
    };

    reveal(BusModel::saved);
    reveal(BusModel::restored);
}

impl CpuModel {
    /// The CPU and what is attached to it, then `rest`.
    #[verifier::opaque]
    pub open spec fn saved(self, rest: Seq<u8>) -> Seq<u8> {
        let rest = self.bus.saved(rest);
        let rest = put_bool(self.irq_masked, rest);
        let rest = put_bool(self.irq_sample, rest);
        let rest = put_bool(self.jammed, rest);
        let rest = put_u8(self.status.raw, rest);
        let rest = put_number(self.pc as nat, rest);
        let rest = put_u8(self.sp, rest);
        let rest = put_u8(self.y, rest);
        let rest = put_u8(self.x, rest);
        put_u8(self.a, rest)
    }

    #[verifier::opaque]
    pub open spec fn restored(t: Tape) -> (CpuModel, Tape) {
        let (a, t) = t.byte();
        let (x, t) = t.byte();
        let (y, t) = t.byte();
        let (sp, t) = t.byte();
        let (pc, t) = t.word();
        let (raw, t) = t.byte();
        let (jammed, t) = t.flag();
        let (irq_sample, t) = t.flag();
        let (irq_masked, t) = t.flag();
        let (bus, t) = BusModel::restored(t);
        (
            CpuModel {
                a,
                x,
                y,
                sp,
                pc,
                status: StatusFlags { raw },
                jammed,
                irq_sample,
                irq_masked,
                bus,
            },
            t,
        )
    }
}

impl Cpu {
    pub fn save(&self, w: &mut Writer)
        ensures
            forall|rest: Seq<u8>| #[trigger] (final(w)@ + rest) == old(w)@ + self@.saved(rest),
    {
        reveal(CpuModel::saved);
        w.byte(self.a);
        w.byte(self.x);
        w.byte(self.y);
        w.byte(self.sp);
        w.word(self.pc);
        w.byte(self.status.bits());
        w.flag(self.jammed);
        w.flag(self.irq_sample);
        w.flag(self.irq_masked);
        self.bus.save(w);
    }

    pub fn restore(r: &mut Reader<'_>) -> (part: Self)
        ensures
            (part@, final(r)@) == CpuModel::restored(old(r)@),
    {
        reveal(CpuModel::restored);
        let a: u8 = r.byte();
        let x: u8 = r.byte();
        let y: u8 = r.byte();
        let sp: u8 = r.byte();
        let pc: u16 = r.word();
        let status: StatusFlags = StatusFlags::from_bits_truncate(r.byte());
        let jammed: bool = r.flag();
        let irq_sample: bool = r.flag();
        let irq_masked: bool = r.flag();
        let bus: Bus = Bus::restore(r);
        Cpu { a, x, y, sp, pc, status, jammed, irq_sample, irq_masked, bus }
    }
}

pub broadcast proof fn lemma_cpu_model_read(part: CpuModel, rest: Seq<u8>)
    requires
        part.bus.savable(),
    ensures
        #[trigger] CpuModel::restored(Tape::at(part.saved(rest))) == (
            part.on(part.bus.kept()),
            Tape::at(rest),
        ),
{
    broadcast use group_read_back;
    broadcast use lemma_bus_model_read;

    reveal(CpuModel::saved);
    reveal(CpuModel::restored);
}

impl NesModel {
    /// The machine, then `rest`.
    #[verifier::opaque]
    pub open spec fn saved(self, rest: Seq<u8>) -> Seq<u8> {
        self.cpu.saved(put_number(self.frame_count as nat, rest))
    }

    #[verifier::opaque]
    pub open spec fn restored(t: Tape) -> (NesModel, Tape) {
        let (cpu, t) = CpuModel::restored(t);
        let (frame_count, t) = t.quad();
        (NesModel { cpu, frame_count }, t)
    }

    /// What a save state keeps of the machine: neither the ROM nor the output.
    pub open spec fn kept(self) -> NesModel {
        NesModel { cpu: self.cpu.on(self.cpu.bus.kept()), ..self }
    }
}

impl Nes {
    pub fn save(&self, w: &mut Writer)
        ensures
            forall|rest: Seq<u8>| #[trigger] (final(w)@ + rest) == old(w)@ + self@.saved(rest),
    {
        reveal(NesModel::saved);
        self.cpu.save(w);
        w.quad(self.frame_count);
    }

    pub fn restore(r: &mut Reader<'_>) -> (part: Self)
        ensures
            (part@, final(r)@) == NesModel::restored(old(r)@),
    {
        reveal(NesModel::restored);
        let cpu: Cpu = Cpu::restore(r);
        let frame_count: u64 = r.quad();
        Nes { cpu, frame_count }
    }
}

/// A restored machine has a whole palette and a blank picture, and no memory but its own.
pub proof fn lemma_restored_shape(t: Tape)
    ensures
        ({
            let b = NesModel::restored(t).0.cpu.bus;
            &&& b.ppu().palette.len() == 32
            &&& b.ppu().screen == blank_picture()
            &&& b.flat_ram.len() == 0
        }),
{
    reveal(NesModel::restored);
    reveal(CpuModel::restored);
    reveal(BusModel::restored);
    lemma_restored_ppu();
}

proof fn lemma_restored_ppu()
    ensures
        forall|t: Tape|
            (#[trigger] PpuModel::restored(t)).0.palette.len() == 32 && PpuModel::restored(
                t,
            ).0.screen == blank_picture(),
{
    reveal(PpuModel::restored);
    reveal(Tape::array32);
    reveal(Tape::raw);
}

pub proof fn lemma_nes_model_read(part: NesModel, rest: Seq<u8>)
    requires
        part.cpu.bus.savable(),
    ensures
        NesModel::restored(Tape::at(part.saved(rest))) == (part.kept(), Tape::at(rest)),
{
    broadcast use group_read_back;
    broadcast use lemma_cpu_model_read;

    reveal(NesModel::saved);
    reveal(NesModel::restored);
}

} // verus!

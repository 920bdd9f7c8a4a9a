//! A fingerprint tells every part of the simulated state.
//!
//! The stream that is hashed can be read back: equal streams come from equal values, in every
//! field. So two machines with the same ROM whose streams agree differ at most in their output.

use vstd::prelude::*;

use super::output::lemma_parts_alike;
use crate::apu::{
    ApuCore, Dmc, Envelope, FrameCounter, LengthCounter, Noise, Pulse, Triangle,
};
use crate::bus::BusModel;
use crate::cartridge::mapper::Mapper;
use crate::cartridge::CartModel;
use crate::cpu::CpuModel;
use crate::fingerprint::{put_bool, put_bytes, put_u16, put_u32, put_u64, put_u8};
use crate::joypad::Joypad;
use crate::nes::NesModel;
use crate::ppu::PpuModel;

verus! {

/// The first byte of a stream.
#[verifier::opaque]
pub open spec fn head(s: Seq<u8>) -> u8 {
    s[0]
}

/// A stream behind its first byte.
#[verifier::opaque]
pub open spec fn tail(s: Seq<u8>) -> Seq<u8> {
    s.skip(1)
}

/// The number that four bytes mean, low byte first.
#[verifier::opaque]
pub open spec fn head_u32(s: Seq<u8>) -> int {
    s[0] + 256 * s[1] + 0x1_0000 * s[2] + 0x100_0000 * s[3]
}

/// The memory at the beginning of a stream, behind its length.
#[verifier::opaque]
pub open spec fn head_bytes(s: Seq<u8>) -> Seq<u8> {
    s.subrange(4, 4 + head_u32(s))
}

/// A stream behind the memory at its beginning.
#[verifier::opaque]
pub open spec fn tail_bytes(s: Seq<u8>) -> Seq<u8> {
    s.skip(4 + head_u32(s))
}

/// The number that two bytes mean, low byte first.
#[verifier::opaque]
pub open spec fn head_u16(s: Seq<u8>) -> int {
    s[0] + 256 * s[1]
}

/// The number that eight bytes mean, low byte first.
#[verifier::opaque]
pub open spec fn head_u64(s: Seq<u8>) -> int {
    head_u32(s) + 0x1_0000_0000 * head_u32(s.skip(4))
}

/// A stream behind its first `n` bytes.
#[verifier::opaque]
pub open spec fn behind(s: Seq<u8>, n: int) -> Seq<u8> {
    s.skip(n)
}

broadcast proof fn lemma_byte_told(v: u8, rest: Seq<u8>)
    ensures
        head(#[trigger] put_u8(v, rest)) == v,
        tail(put_u8(v, rest)) == rest,
{
    reveal(head);
    reveal(tail);
    assert(put_u8(v, rest).skip(1) =~= rest);
}

broadcast proof fn lemma_word_told(v: u16, rest: Seq<u8>)
    ensures
        head_u16(#[trigger] put_u16(v, rest)) == v,
        behind(put_u16(v, rest), 2) == rest,
{
    reveal(head_u16);
    reveal(behind);
    assert(put_u16(v, rest).skip(2) =~= rest);
}

broadcast proof fn lemma_long_told(v: u32, rest: Seq<u8>)
    ensures
        head_u32(#[trigger] put_u32(v, rest)) == v,
        behind(put_u32(v, rest), 4) == rest,
{
    reveal(head_u32);
    reveal(behind);
    let s = put_u32(v, rest);
    let low = (v % 0x1_0000) as u16;
    let high = (v / 0x1_0000) as u16;
    assert(s[0] == low % 256 && s[1] == low / 256);
    assert(s[2] == high % 256 && s[3] == high / 256);
    assert(s.skip(4) =~= rest);
}

broadcast proof fn lemma_quad_told(v: u64, rest: Seq<u8>)
    ensures
        head_u64(#[trigger] put_u64(v, rest)) == v,
        behind(put_u64(v, rest), 8) == rest,
{
    reveal(head_u64);
    reveal(behind);
    let high = put_u32((v / 0x1_0000_0000) as u32, rest);
    lemma_long_told((v % 0x1_0000_0000) as u32, high);
    lemma_long_told((v / 0x1_0000_0000) as u32, rest);
    assert(put_u64(v, rest).skip(8) =~= high.skip(4));
}

broadcast proof fn lemma_bytes_told(v: Seq<u8>, rest: Seq<u8>)
    requires
        v.len() < 0x1_0000_0000,
    ensures
        head_bytes(#[trigger] put_bytes(v, rest)) == v,
        tail_bytes(put_bytes(v, rest)) == rest,
{
    reveal(head_bytes);
    reveal(tail_bytes);
    reveal(behind);
    let n = v.len() as u32;
    let s = put_bytes(v, rest);
    lemma_long_told(n, v + rest);
    assert(s.subrange(4, 4 + n) =~= s.skip(4).take(n as int));
    assert((v + rest).take(n as int) =~= v);
    assert(s.skip(4 + n) =~= s.skip(4).skip(n as int));
    assert((v + rest).skip(n as int) =~= rest);
}

/// What was written can be told from the stream.
broadcast group group_told {
    lemma_byte_told,
    lemma_word_told,
    lemma_long_told,
    lemma_quad_told,
    lemma_bytes_told,
}

proof fn lemma_length_counter_told(p: LengthCounter, q: LengthCounter, r: Seq<u8>, s: Seq<u8>)
    requires
        p.stamp(r) == q.stamp(s),
    ensures
        p == q,
        r == s,
{
    broadcast use group_told;

    reveal(LengthCounter::stamp);
}

proof fn lemma_envelope_told(p: Envelope, q: Envelope, r: Seq<u8>, s: Seq<u8>)
    requires
        p.stamp(r) == q.stamp(s),
    ensures
        p == q,
        r == s,
{
    broadcast use group_told;

    reveal(Envelope::stamp);
}

proof fn lemma_pulse_told(p: Pulse, q: Pulse, r: Seq<u8>, s: Seq<u8>)
    requires
        p.stamp(r) == q.stamp(s),
    ensures
        p == q,
        r == s,
{
    broadcast use group_told;

    reveal(Pulse::stamp);
    reveal(Pulse::sweep_stamp);
    lemma_envelope_told(
        p.envelope,
        q.envelope,
        p.length.stamp(p.sweep_stamp(r)),
        q.length.stamp(q.sweep_stamp(s)),
    );
    lemma_length_counter_told(p.length, q.length, p.sweep_stamp(r), q.sweep_stamp(s));
}

proof fn lemma_triangle_told(p: Triangle, q: Triangle, r: Seq<u8>, s: Seq<u8>)
    requires
        p.stamp(r) == q.stamp(s),
    ensures
        p == q,
        r == s,
{
    broadcast use group_told;

    reveal(Triangle::stamp);
    lemma_length_counter_told(
        p.length,
        q.length,
        put_u16(p.timer_period, put_u32(p.cnt, put_u8(p.seq, r))),
        put_u16(q.timer_period, put_u32(q.cnt, put_u8(q.seq, s))),
    );
}

proof fn lemma_noise_told(p: Noise, q: Noise, r: Seq<u8>, s: Seq<u8>)
    requires
        p.stamp(r) == q.stamp(s),
    ensures
        p == q,
        r == s,
{
    broadcast use group_told;

    reveal(Noise::stamp);
    let r1 = put_bool(p.mode, put_u8(p.period_index, put_u32(p.cnt, put_u16(p.shift, r))));
    let s1 = put_bool(q.mode, put_u8(q.period_index, put_u32(q.cnt, put_u16(q.shift, s))));
    lemma_envelope_told(p.envelope, q.envelope, p.length.stamp(r1), q.length.stamp(s1));
    lemma_length_counter_told(p.length, q.length, r1, s1);
}

proof fn lemma_dmc_output_told(p: Dmc, q: Dmc, r: Seq<u8>, s: Seq<u8>)
    requires
        p.output_stamp(r) == q.output_stamp(s),
    ensures
        p.read_buffer == q.read_buffer,
        p.buffer_empty == q.buffer_empty,
        p.shift_register == q.shift_register,
        p.bits_remaining == q.bits_remaining,
        p.silence == q.silence,
        p.output_level == q.output_level,
        p.irq_flag == q.irq_flag,
        p.start_delay == q.start_delay,
        r == s,
{
    broadcast use group_told;

    reveal(Dmc::output_stamp);
}

proof fn lemma_dmc_told(p: Dmc, q: Dmc, r: Seq<u8>, s: Seq<u8>)
    requires
        p.stamp(r) == q.stamp(s),
    ensures
        p == q,
        r == s,
{
    broadcast use group_told;

    reveal(Dmc::stamp);
    lemma_dmc_output_told(p, q, r, s);
}

proof fn lemma_frame_counter_told(p: FrameCounter, q: FrameCounter, r: Seq<u8>, s: Seq<u8>)
    requires
        p.stamp(r) == q.stamp(s),
    ensures
        p == q,
        r == s,
{
    broadcast use group_told;

    reveal(FrameCounter::stamp);
}

proof fn lemma_joypad_told(p: Joypad, q: Joypad, r: Seq<u8>, s: Seq<u8>)
    requires
        p.stamp(r) == q.stamp(s),
    ensures
        p == q,
        r == s,
{
    broadcast use group_told;

    reveal(Joypad::stamp);
}

proof fn lemma_ppu_timing_told(p: PpuModel, q: PpuModel, r: Seq<u8>, s: Seq<u8>)
    requires
        p.timing_stamp(r) == q.timing_stamp(s),
    ensures
        p.scanline == q.scanline,
        p.cycle == q.cycle,
        p.frame == q.frame,
        p.odd_frame == q.odd_frame,
        p.nmi_line == q.nmi_line,
        p.nmi_pending == q.nmi_pending,
        p.nmi_delay == q.nmi_delay,
        p.frame_done == q.frame_done,
        p.sprite0_hit_dot == q.sprite0_hit_dot,
        p.overflow_pending == q.overflow_pending,
        p.prefetch_incs == q.prefetch_incs,
        r == s,
{
    broadcast use group_told;

    reveal(PpuModel::timing_stamp);
}

proof fn lemma_ppu_memory_told(p: PpuModel, q: PpuModel, r: Seq<u8>, s: Seq<u8>)
    requires
        p.wf(),
        q.wf(),
        p.memory_stamp(r) == q.memory_stamp(s),
    ensures
        p.oam == q.oam,
        p.vram == q.vram,
        p.palette == q.palette,
        p.timing_stamp(r) == q.timing_stamp(s),
{
    reveal(PpuModel::memory_stamp);
    let r1 = put_bytes(p.palette, p.timing_stamp(r));
    let s1 = put_bytes(q.palette, q.timing_stamp(s));
    lemma_bytes_told(p.oam, put_bytes(p.vram, r1));
    lemma_bytes_told(q.oam, put_bytes(q.vram, s1));
    lemma_bytes_told(p.vram, r1);
    lemma_bytes_told(q.vram, s1);
    lemma_bytes_told(p.palette, p.timing_stamp(r));
    lemma_bytes_told(q.palette, q.timing_stamp(s));
}

proof fn lemma_ppu_told(p: PpuModel, q: PpuModel, r: Seq<u8>, s: Seq<u8>)
    requires
        p.wf(),
        q.wf(),
        p.stamp(r) == q.stamp(s),
    ensures
        p.silent() == q.silent(),
        r == s,
{
    broadcast use group_told;

    reveal(PpuModel::stamp);
    lemma_ppu_memory_told(p, q, r, s);
    lemma_ppu_timing_told(p, q, r, s);
}

proof fn lemma_apu_told(p: ApuCore, q: ApuCore, r: Seq<u8>, s: Seq<u8>)
    requires
        p.stamp(r) == q.stamp(s),
    ensures
        p == q,
        r == s,
{
    broadcast use group_told;

    reveal(ApuCore::stamp);
    let r1 = put_bool(
        p.frame_irq,
        put_u64(p.cycles, put_u8(p.ahead, put_u32(p.dmc_stall, r))),
    );
    let s1 = put_bool(
        q.frame_irq,
        put_u64(q.cycles, put_u8(q.ahead, put_u32(q.dmc_stall, s))),
    );
    let r2 = p.frame.stamp(r1);
    let s2 = q.frame.stamp(s1);
    let r3 = p.dmc.stamp(r2);
    let s3 = q.dmc.stamp(s2);
    let r4 = p.noise.stamp(r3);
    let s4 = q.noise.stamp(s3);
    let r5 = p.triangle.stamp(r4);
    let s5 = q.triangle.stamp(s4);
    lemma_pulse_told(p.pulse0, q.pulse0, p.pulse1.stamp(r5), q.pulse1.stamp(s5));
    lemma_pulse_told(p.pulse1, q.pulse1, r5, s5);
    lemma_triangle_told(p.triangle, q.triangle, r4, s4);
    lemma_noise_told(p.noise, q.noise, r3, s3);
    lemma_dmc_told(p.dmc, q.dmc, r2, s2);
    lemma_frame_counter_told(p.frame, q.frame, r1, s1);
}

/// The number of banks that the header gives a mapper which has no registers.
pub open spec fn fixed_banks(m: Mapper) -> u8 {
    match m {
        Mapper::Nrom(n) => n.prg_banks,
        _ => 0,
    }
}

proof fn lemma_cart_told(p: CartModel, q: CartModel, r: Seq<u8>, s: Seq<u8>)
    requires
        p.same_rom(q),
        fixed_banks(p.mapper) == fixed_banks(q.mapper),
        p.valid(),
        q.valid(),
        p.stamp(r) == q.stamp(s),
    ensures
        p == q,
        r == s,
{
    broadcast use group_told;

    reveal(CartModel::stamp);
    reveal(Mapper::stamp);
}

proof fn lemma_lines_told(p: BusModel, q: BusModel, r: Seq<u8>, s: Seq<u8>)
    requires
        p.line_stamp(r) == q.line_stamp(s),
    ensures
        p.total_cycles == q.total_cycles,
        p.open_bus == q.open_bus,
        p.pending_oam_dma == q.pending_oam_dma,
        r == s,
{
    broadcast use group_told;

    reveal(BusModel::line_stamp);
}

/// Machines that have the same ROM and hash the same stream differ at most in their output.
pub proof fn law_a_fingerprint_tells_everything(m: NesModel, n: NesModel)
    requires
        m.sound(),
        n.sound(),
        m.cpu.bus.cart().same_rom(n.cpu.bus.cart()),
        fixed_banks(m.cpu.bus.cart().mapper) == fixed_banks(n.cpu.bus.cart().mapper),
        m.stamp() == n.stamp(),
    ensures
        m.alike(n),
{
    broadcast use group_told;

    reveal(CpuModel::stamp);
    reveal(BusModel::stamp);
    reveal(BusModel::wf);
    let b = m.cpu.bus;
    let c = n.cpu.bus;
    let r = put_u64(m.frame_count, Seq::empty());
    let s = put_u64(n.frame_count, Seq::empty());
    let r1 = b.pad1.stamp(b.line_stamp(r));
    let s1 = c.pad1.stamp(c.line_stamp(s));
    let r2 = b.pad0.stamp(r1);
    let s2 = c.pad0.stamp(s1);
    let r3 = b.cart().stamp(r2);
    let s3 = c.cart().stamp(s2);
    let r4 = b.apu().core.stamp(r3);
    let s4 = c.apu().core.stamp(s3);
    lemma_ppu_told(b.ppu(), c.ppu(), r4, s4);
    lemma_apu_told(b.apu().core, c.apu().core, r3, s3);
    lemma_cart_told(b.cart(), c.cart(), r2, s2);
    lemma_joypad_told(b.pad0, c.pad0, r1, s1);
    lemma_joypad_told(b.pad1, c.pad1, b.line_stamp(r), c.line_stamp(s));
    lemma_lines_told(b, c, r, s);
    assert(b.flat_ram =~= c.flat_ram);
    assert(b.access_log =~= c.access_log);
    lemma_parts_alike(b, c);
}

} // verus!

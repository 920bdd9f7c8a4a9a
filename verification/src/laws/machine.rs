//! The machine as a whole: frames and their input, instructions and their time, and what a debugger
//! and a recording hold of it.

use vstd::prelude::*;

use super::flow::{lemma_immediate, lemma_program, plain};
use super::words::lemma_shifts;
use crate::apu::channels::Dmc;
use crate::apu::ApuCore;
use crate::bus::BusModel;
use crate::cartridge::CartModel;
use crate::cpu::opcodes::{decoded, AddrMode, Mnemonic, OpcodeInfo};
use crate::cpu::{CpuModel, Operand};
use crate::debug::DebugSnapshot;
use crate::input::FrameInput;
use crate::nes::NesModel;
use crate::replay::{compressed, Checkpoint, PlayerModel, RecorderModel};

verus! {

/// A frame begins with the buttons of its input, the first player's on the first pad and the
/// second's on the second, and after a reset if the input has one. It counts as one.
pub proof fn law_a_frame_begins_with_its_input(m: NesModel, input: FrameInput)
    ensures
        ({
            let b = m.begun(input).cpu.bus;
            let from = if input.reset { m.was_reset() } else { m };
            &&& b.pad0.state == input.p1
            &&& b.pad1.state == input.p2
            &&& b.pad0.strobe == from.cpu.bus.pad0.strobe
            &&& b.pad1.strobe == from.cpu.bus.pad1.strobe
            &&& b.ram == from.cpu.bus.ram
            &&& b.apu() == from.cpu.bus.apu()
            &&& b.cart() == from.cpu.bus.cart()
            &&& m.begun(input).cpu.pc == from.cpu.pc
            &&& m.begun(input).cpu.a == from.cpu.a
            &&& !b.ppu().frame_done
            &&& m.ran_frame(input).frame_count == m.frame_count.wrapping_add(1)
            &&& !m.ran_frame(input).cpu.bus.ppu().frame_done
        }),
{
    reveal(NesModel::ran_frame);
}

/// The sample channel has nothing to fetch.
pub open spec fn idle(u: ApuCore) -> bool {
    u.dmc.bytes_remaining == 0 && u.dmc.start_delay == 0 && u.dmc_stall == 0
}

proof fn lemma_idle(u: ApuCore, n: int, cart: CartModel)
    requires
        idle(u),
        n >= 0,
    ensures
        idle(u.after(n, cart)),
    decreases n,
{
    if n > 0 {
        lemma_idle(u, n - 1, cart);
        reveal(Dmc::advanced);
    }
}

proof fn lemma_idle_time(b: BusModel, n: int)
    requires
        idle(b.apu().core),
        n >= 0,
    ensures
        idle(b.advanced(n).apu().core),
        b.advanced(n).total_cycles == b.total_cycles.wrapping_add(n as u64),
        b.advanced(n).ppu() == b.ppu().stepped((3 * n) as nat, b.cart()),
        b.advanced(n).cart() == b.cart(),
        b.advanced(n).ram == b.ram,
        b.advanced(n).flat_ram == b.flat_ram,
        b.advanced(n).pending_oam_dma == b.pending_oam_dma,
{
    reveal(BusModel::advanced);
    let a = b.apu();
    let skipped = crate::apu::smaller(a.core.ahead as int, n);
    let core = ApuCore { ahead: (a.core.ahead - skipped) as u8, ..a.core };
    if n - skipped >= 0 {
        lemma_idle(core, n - skipped, b.cart());
    }
}

/// An instruction with an immediate operand in the program takes the machine two cycles further: six
/// dots of the picture. Whether an IRQ is asked for is seen before the last of them.
pub proof fn law_two_cycles_are_six_dots(c: CpuModel)
    requires
        plain(c.bus),
        idle(c.bus.apu().core),
        c.bus.pending_oam_dma is None,
        0x8000 <= c.pc < 0xFFFE,
        decoded(c.bus.cart().prg_byte(c.pc)).mode == AddrMode::Immediate,
    ensures
        ({
            let d = c.running().0;
            &&& d.bus.total_cycles == c.bus.total_cycles.wrapping_add(1).wrapping_add(1)
            &&& d.bus.ppu() == c.bus.ppu().stepped(3, c.bus.cart()).stepped(3, c.bus.cart())
            &&& d.bus.ram == c.bus.ram
            &&& d.bus.cart() == c.bus.cart()
            &&& d.irq_sample == c.bus.apu().stepped(1, c.bus.cart()).core.interrupts()
        }),
{
    reveal(CpuModel::running);
    reveal(CpuModel::locating);
    reveal(CpuModel::caught_up);
    reveal(CpuModel::executing);
    reveal(BusModel::dma_run);
    let opcode = c.bus.cart().prg_byte(c.pc);
    lemma_immediate(opcode);
    lemma_program(c.bus, c.pc);
    let b = c.bus.after_read(c.pc);
    assert(b.total_cycles == c.bus.total_cycles && b.pending_oam_dma is None) by {
        reveal(BusModel::after_read);
    }
    lemma_idle_time(b, 1);
    let next = (c.pc + 1) as u16;
    let e = b.advanced(1);
    lemma_program(e, next);
    let f = e.after_read(next);
    assert(f.total_cycles == e.total_cycles && f.pending_oam_dma is None) by {
        reveal(BusModel::after_read);
    }
    lemma_idle_time(f, 1);
    let sampled = CpuModel {
        pc: (c.pc + 2) as u16,
        irq_sample: e.interrupts(),
        bus: e,
        ..c
    };
    lemma_value_keeps_the_rest(
        sampled.on(f),
        decoded(opcode).mnemonic,
        e.value_read(next),
    );
    assert(e.apu() == c.bus.apu().stepped(1, c.bus.cart())) by {
        reveal(BusModel::advanced);
        let a = c.bus.apu();
        let skipped = crate::apu::smaller(a.core.ahead as int, 1);
        if 1 - skipped >= 0 {
            lemma_idle(
                ApuCore { ahead: (a.core.ahead - skipped) as u8, ..a.core },
                1 - skipped,
                c.bus.cart(),
            );
        }
    }
    reveal(BusModel::interrupts);
}

proof fn lemma_value_keeps_the_rest(c: CpuModel, mnemonic: Mnemonic, v: u8)
    ensures
        c.value_applied(mnemonic, v).bus == c.bus,
        c.value_applied(mnemonic, v).irq_sample == c.irq_sample,
{
    reveal(CpuModel::value_applied);
    reveal(CpuModel::loaded);
    reveal(CpuModel::calculated);
    reveal(CpuModel::tested);
    reveal(CpuModel::masked);
}

/// An interrupt takes seven cycles, and so does a reset.
#[verifier::rlimit(40)]
pub proof fn law_interrupts_take_seven_cycles(c: CpuModel, vector: u16)
    requires
        plain(c.bus),
        idle(c.bus.apu().core),
        vector == 0xFFFA || vector == 0xFFFE,
    ensures
        c.served(vector).bus.total_cycles == c.bus.total_cycles.wrapping_add(7),
        c.served(vector).bus.ppu() == c.bus.ppu().stepped(21, c.bus.cart()),
        c.was_reset().bus.total_cycles == c.bus.total_cycles.wrapping_add(7),
        c.was_reset().bus.ppu() == c.bus.ppu().stepped(21, c.bus.cart()),
{
    reveal(CpuModel::interrupted);
    reveal(BusModel::written);
    reveal(BusModel::after_read);
    let flags = c.status.with(0x10, false).with(0x20, true).raw;
    let one = c.pushed((c.pc / 256) as u8);
    let two = one.pushed((c.pc % 256) as u8);
    let three = two.pushed(flags);
    assert(one.bus.units == c.bus.units && two.bus.units == c.bus.units && three.bus.units
        == c.bus.units);
    let d = three.reading_word(vector, vector.wrapping_add(1)).0;
    assert(d.bus.units == c.bus.units && d.bus.total_cycles == c.bus.total_cycles);
    lemma_idle_time(d.bus, 7);
    lemma_idle_time(c.bus.after_read(0xFFFC).after_read(0xFFFD), 7);
}

/// Where an index was added, the byte at the address before the correction of its page is read one
/// cycle before the operand is used: if the page was left, and always by instructions that write.
pub proof fn law_indexing_reads_before_correcting(
    c: CpuModel,
    operand: Operand,
    info: OpcodeInfo,
    lead: int,
)
    requires
        lead >= 1,
    ensures
        ({
            let reads = operand.uncorrected is Some && (operand.crossed || !info.page_cross_penalty);
            let d = c.caught_up(lead, operand.dummy(info));
            &&& reads ==> d.bus == c.bus.advanced(lead - 1).after_read(
                operand.uncorrected->0,
            ).advanced(1)
            &&& !reads ==> d.bus == c.bus.advanced(lead)
            &&& d == CpuModel { bus: d.bus, ..c }
        }),
{
    reveal(CpuModel::caught_up);
}

/// Whether an IRQ is masked goes by the interrupt flag at the end of the instruction; after CLI, SEI
/// and PLP by the flag before it.
#[verifier::rlimit(40)]
pub proof fn law_the_mask_is_late_for_three(c: CpuModel)
    ensures
        ({
            let m = decoded(c.bus.value_read(c.pc)).mnemonic;
            let late = m == Mnemonic::Cli || m == Mnemonic::Sei || m == Mnemonic::Plp;
            let d = c.running().0;
            d.irq_masked == if late { c.status.flag(2) } else { d.status.flag(2) }
        }),
{
    reveal(CpuModel::running);
    let info = decoded(c.bus.value_read(c.pc));
    let (located, operand) = c.fetching().0.locating(info.mode);
    assert(located.status == c.status) by {
        reveal(CpuModel::locating);
    }
    let ready = located.caught_up(operand.cycles(info) - 1, operand.dummy(info));
    assert(ready.status == c.status) by {
        reveal(CpuModel::caught_up);
    }
    lemma_shifts(c.status.raw);
    let sampled = CpuModel { irq_sample: ready.bus.interrupts(), ..ready };
    lemma_shifts(sampled.executing(info.mnemonic, info.mode, operand.addr).0.status.raw);
}

/// A snapshot for a debugger shows the registers of the three units as they are.
pub proof fn law_snapshots_show_the_machine(m: NesModel, s: DebugSnapshot)
    requires
        m.cpu_shown(s),
        m.ppu_shown(s),
        m.apu_shown(s),
        m.mapper_shown(s),
    ensures
        ({
            let c = m.cpu;
            let p = c.bus.ppu();
            let u = c.bus.apu().core;
            &&& (s.cpu_a, s.cpu_x, s.cpu_y, s.cpu_sp) == (c.a, c.x, c.y, c.sp)
            &&& (s.cpu_pc, s.cpu_status, s.cpu_jammed) == (c.pc, c.status.raw, c.jammed)
            &&& (s.cpu_cycles, s.frame_count) == (c.bus.total_cycles, m.frame_count)
            &&& (s.ppu_ctrl, s.ppu_mask, s.ppu_status) == (p.ctrl, p.mask, p.status)
            &&& (s.ppu_scanline, s.ppu_cycle, s.ppu_frame) == (p.scanline, p.cycle, p.frame)
            &&& (s.ppu_v, s.ppu_t, s.ppu_fine_x, s.ppu_w) == (p.v, p.t, p.fine_x, p.w)
            &&& s.ppu_oam_addr == p.oam_addr
            &&& (s.palette_ram@, s.oam@) == (p.palette, p.oam)
            &&& s.apu.pulse@[0].duty == u.pulse0.duty && s.apu.pulse@[1].duty == u.pulse1.duty
            &&& s.apu.pulse@[0].output == u.pulse0.level() && s.apu.pulse@[1].output
                == u.pulse1.level()
            &&& s.apu.pulse@[0].length == u.pulse0.length.counter
            &&& s.apu.pulse@[1].length == u.pulse1.length.counter
            &&& s.apu.pulse@[0].timer_period == u.pulse0.timer_period
            &&& s.apu.pulse@[1].timer_period == u.pulse1.timer_period
            &&& s.apu.triangle.output == u.triangle.level() && s.apu.triangle.length
                == u.triangle.length.counter && s.apu.triangle.linear_counter
                == u.triangle.linear_counter
            &&& s.apu.noise.output == u.noise.level() && s.apu.noise.shift == u.noise.shift
                && s.apu.noise.length == u.noise.length.counter
            &&& s.apu.dmc.output_level == u.dmc.output_level && s.apu.dmc.bytes_remaining
                == u.dmc.bytes_remaining && s.apu.dmc.current_addr == u.dmc.current_addr
            &&& (s.apu.frame_mode5, s.apu.frame_irq) == (u.frame.mode5, u.frame_irq)
            &&& s.apu.status == u.status()
            &&& s.mapper_id == c.bus.cart().mapper.number()
        }),
{
}

/// Each run of a recording is as long as it can be: the next has another input, unless the run is
/// full.
pub proof fn law_runs_are_as_long_as_they_can_be(inputs: Seq<FrameInput>)
    ensures
        forall|i: int|
            0 <= i < compressed(inputs).len() - 1 ==> (#[trigger] compressed(inputs)[i]).input
                != compressed(inputs)[i + 1].input || compressed(inputs)[i].frames == u32::MAX,
        inputs.len() > 0 ==> compressed(inputs).last().input == inputs.last(),
    decreases inputs.len(),
{
    if inputs.len() > 0 {
        let before = compressed(inputs.drop_last());
        law_runs_are_as_long_as_they_can_be(inputs.drop_last());
        let runs = compressed(inputs);
        assert forall|i: int| 0 <= i < runs.len() - 1 implies (#[trigger] runs[i]).input != runs[i
            + 1].input || runs[i].frames == u32::MAX by {
            assert(runs[i] == before[i]);
            if i + 1 < before.len() {
                assert(before[i].input != before[i + 1].input || before[i].frames == u32::MAX);
            }
        }
    }
}

/// A recording keeps the fingerprint of every frame whose number the interval divides, and of the
/// last one; each with its frame.
pub proof fn law_checkpoints_come_every_interval(r: RecorderModel, input: FrameInput, print: u64)
    requires
        r.wf(),
        r.frames < u32::MAX,
    ensures
        ({
            let d = r.recorded(input, print);
            let frame = (r.frames + 1) as u32;
            &&& d.frames == frame
            &&& frame as int % r.interval as int == 0 ==> d.checkpoints == r.checkpoints.push(
                Checkpoint { frame, fingerprint: print },
            )
            &&& frame as int % r.interval as int != 0 ==> d.checkpoints == r.checkpoints
            &&& d.interval == r.interval && d.rom_id == r.rom_id
        }),
        ({
            let f = r.finished(print);
            &&& f.total_frames == r.frames
            &&& f.checkpoints.last().frame == r.frames
            &&& r.checkpoints.last().frame != r.frames ==> f.checkpoints.last().fingerprint == print
            &&& f.checkpoints.take(r.checkpoints.len() as int) == r.checkpoints
            &&& f.rom_id == r.rom_id
        }),
{
    let f = r.finished(print);
    assert(f.checkpoints.take(r.checkpoints.len() as int) =~= r.checkpoints);
}

/// A frame that a replay has a checkpoint for is a mismatch if and only if its fingerprint is
/// another; the report tells both, and the last frame that was met. Other frames are none.
pub proof fn law_mismatches_are_reported(p: PlayerModel, k: int, actual: u64)
    requires
        p.valid(),
        p.frame < p.replay.total_frames,
        0 <= k < p.replay.checkpoints.len(),
    ensures
        ({
            let c = p.replay.checkpoints[k];
            let report = p.mismatch(actual);
            &&& c.frame == p.frame + 1 ==> (report is Some) == (c.fingerprint != actual)
            &&& report is Some ==> report->0.frame == p.frame + 1 && report->0.actual == actual
                && report->0.expected != actual && report->0.last_good_frame == p.last_good
            &&& c.frame == p.frame + 1 && report is Some ==> report->0.expected == c.fingerprint
            &&& c.frame == p.frame + 1 && c.fingerprint == actual ==> p.played(actual).last_good
                == Some(c.frame)
            &&& p.played(actual).frame == p.frame + 1
        }),
{
    let next = p.next as int;
    let all = p.replay.checkpoints;
    if k < next {
        if k < next - 1 {
            assert(all[k].frame < all[next - 1].frame);
        }
    } else if k > next {
        assert(all[next].frame < all[k].frame);
    }
}

} // verus!

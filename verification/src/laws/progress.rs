//! A machine always goes on: whatever it does leads to a machine that can go on, and it always
//! completes the frame it is in.

use vstd::prelude::*;

use crate::apu::{law_apu_stays_wf, law_fetches_are_rare};
use crate::bus::{
    lemma_advance_leads, lemma_copy_leads, lemma_dma_leads, lemma_leads_on, lemma_leads_to_itself,
    lemma_leads_to_wf, lemma_nmi_leads, lemma_read_leads, lemma_write_leads, BusModel,
};
use crate::cartridge::{ines, RomId};
use crate::cpu::opcodes::{decoded, law_opcode_sizes, AddrMode, Mnemonic};
use crate::cpu::CpuModel;
use crate::input::FrameInput;
use crate::nes::{boot_refusal, NesModel};
use crate::ppu::{law_dots_lead_to_vblank, lemma_overrun, PpuModel};

verus! {

broadcast proof fn lemma_read_on(a: BusModel, b: BusModel, addr: u16)
    requires
        #[trigger] a.leads_to(b),
    ensures
        a.leads_to(#[trigger] b.after_read(addr)),
        a.passes_to(b) ==> a.passes_to(b.after_read(addr)),
{
    lemma_leads_to_wf(a, b);
    lemma_read_leads(b, addr);
    lemma_leads_on(a, b, b.after_read(addr));
}

broadcast proof fn lemma_write_on(
    a: BusModel,
    b: BusModel,
    addr: u16,
    value: u8,
    consecutive: bool,
)
    requires
        #[trigger] a.leads_to(b),
    ensures
        a.leads_to(#[trigger] b.written(addr, value, consecutive)),
        a.passes_to(b) ==> a.passes_to(b.written(addr, value, consecutive)),
{
    lemma_leads_to_wf(a, b);
    lemma_write_leads(b, addr, value, consecutive);
    lemma_leads_on(a, b, b.written(addr, value, consecutive));
}

broadcast proof fn lemma_advance_on(a: BusModel, b: BusModel, n: int)
    requires
        #[trigger] a.leads_to(b),
        0 <= n <= 514,
    ensures
        a.leads_to(#[trigger] b.advanced(n)),
        a.passes_to(b) || n > 0 ==> a.passes_to(b.advanced(n)),
{
    lemma_leads_to_wf(a, b);
    lemma_advance_leads(b, n);
    lemma_leads_on(a, b, b.advanced(n));
}

broadcast proof fn lemma_dma_on(a: BusModel, b: BusModel)
    requires
        #[trigger] a.leads_to(b),
    ensures
        a.leads_to(#[trigger] b.dma_run()),
        a.passes_to(b) ==> a.passes_to(b.dma_run()),
{
    lemma_leads_to_wf(a, b);
    lemma_dma_leads(b);
    lemma_leads_on(a, b, b.dma_run());
}

broadcast group group_going_on {
    lemma_read_on,
    lemma_write_on,
    lemma_advance_on,
    lemma_dma_on,
}

impl BusModel {
    /// How far the machine went on after a frame was completed.
    #[verifier::opaque]
    pub open spec fn overrun(self) -> int {
        self.ppu().overrun()
    }
}

broadcast proof fn lemma_read_overrun(b: BusModel, addr: u16)
    ensures
        (#[trigger] b.after_read(addr)).overrun() == b.overrun(),
{
    reveal(BusModel::overrun);
    reveal(BusModel::after_read);
    reveal(PpuModel::register_read);
}

broadcast proof fn lemma_write_overrun(b: BusModel, addr: u16, value: u8, consecutive: bool)
    ensures
        (#[trigger] b.written(addr, value, consecutive)).overrun() == b.overrun(),
{
    reveal(BusModel::overrun);
    reveal(BusModel::written);
    reveal(PpuModel::register_written);
}

proof fn lemma_ran_overrun(b: BusModel, n: int)
    requires
        b.wf(),
        0 <= n,
    ensures
        b.ran(n).overrun() <= b.overrun() + 6 * n,
        b.ran(n).stall_cleared().overrun() == b.ran(n).overrun(),
{
    reveal(BusModel::overrun);
    reveal(BusModel::wf);
    lemma_overrun(b.ppu(), (3 * n) as nat, b.cart());
}

broadcast proof fn lemma_advance_overrun(a: BusModel, b: BusModel, n: int)
    requires
        #[trigger] a.leads_to(b),
        0 <= n <= 514,
    ensures
        (#[trigger] b.advanced(n)).overrun() <= b.overrun() + 6 * n + 504,
{
    reveal(BusModel::advanced);
    lemma_leads_to_wf(a, b);
    lemma_ran_overrun(b, n);
    let c = b.ran(n);
    let stall = c.apu().core.dmc_stall as int;
    assert(stall <= 84 && c.stall_cleared().wf()) by {
        reveal(BusModel::wf);
        law_apu_stays_wf(b.apu(), n, 0, 0, false, b.cart());
        law_fetches_are_rare(b.apu(), n, b.cart());
        law_dots_lead_to_vblank(b.ppu(), (3 * n) as nat, b.cart());
    }
    lemma_ran_overrun(c.stall_cleared(), stall);
}

proof fn lemma_copy_overrun(b: BusModel, base: u16, n: int)
    ensures
        b.copied(base, n).overrun() == b.overrun(),
    decreases n,
{
    if n > 0 {
        lemma_copy_overrun(b, base, n - 1);
        lemma_read_overrun(b.copied(base, n - 1), base.wrapping_add((n - 1) as u16));
        reveal(BusModel::overrun);
    }
}

broadcast proof fn lemma_dma_overrun(a: BusModel, b: BusModel)
    requires
        #[trigger] a.leads_to(b),
    ensures
        (#[trigger] b.dma_run()).overrun() <= b.overrun() + 3588,
{
    reveal(BusModel::dma_run);
    if let Some(page) = b.pending_oam_dma {
        let c = BusModel { pending_oam_dma: None, ..b };
        let base = (page * 256) as u16;
        assert(c.overrun() == b.overrun()) by {
            reveal(BusModel::overrun);
        }
        lemma_copy_overrun(c, base, 256);
        lemma_leads_to_wf(a, b);
        assert(c.wf()) by {
            reveal(BusModel::wf);
        }
        lemma_copy_leads(c, base, 256);
        let d = c.copied(base, 256);
        lemma_advance_overrun(c, d, d.dma_cycles());
    }
}

broadcast group group_overrun {
    lemma_read_overrun,
    lemma_write_overrun,
    lemma_advance_overrun,
    lemma_dma_overrun,
}

proof fn lemma_locating_goes_on(a: BusModel, c: CpuModel, mode: AddrMode)
    requires
        a.leads_to(c.bus),
    ensures
        a.leads_to(c.locating(mode).0.bus),
        c.locating(mode).0.bus.overrun() == c.bus.overrun(),
{
    broadcast use {group_going_on, group_overrun};

    reveal(CpuModel::locating);
}

proof fn lemma_caught_up_goes_on(a: BusModel, c: CpuModel, lead: int, dummy: Option<u16>)
    requires
        a.leads_to(c.bus),
        1 <= lead <= 514,
    ensures
        a.leads_to(c.caught_up(lead, dummy).bus),
        a.passes_to(c.caught_up(lead, dummy).bus),
        c.caught_up(lead, dummy).bus.overrun() <= c.bus.overrun() + 6 * lead + 1008,
{
    broadcast use {group_going_on, group_overrun};

    reveal(CpuModel::caught_up);
}

proof fn lemma_interrupted_goes_on(a: BusModel, c: CpuModel, vector: u16)
    requires
        a.leads_to(c.bus),
    ensures
        a.leads_to(c.interrupted(vector).bus),
        a.passes_to(c.interrupted(vector).bus),
        c.interrupted(vector).bus.overrun() <= c.bus.overrun() + 546,
{
    broadcast use {group_going_on, group_overrun};

    reveal(CpuModel::interrupted);
}

proof fn lemma_registers_apart(c: CpuModel, mnemonic: Mnemonic, v: u8)
    ensures
        c.value_applied(mnemonic, v).bus == c.bus,
        c.registers_moved(mnemonic).bus == c.bus,
{
    reveal(CpuModel::value_applied);
    reveal(CpuModel::loaded);
    reveal(CpuModel::calculated);
    reveal(CpuModel::tested);
    reveal(CpuModel::masked);
    reveal(CpuModel::registers_moved);
}

proof fn lemma_executing_goes_on(
    a: BusModel,
    c: CpuModel,
    mnemonic: Mnemonic,
    mode: AddrMode,
    addr: u16,
)
    requires
        a.leads_to(c.bus),
        a.passes_to(c.bus),
    ensures
        a.leads_to(c.executing(mnemonic, mode, addr).0.bus),
        a.passes_to(c.executing(mnemonic, mode, addr).0.bus),
        c.executing(mnemonic, mode, addr).1 <= 2,
        c.executing(mnemonic, mode, addr).0.bus.overrun() == c.bus.overrun(),
{
    broadcast use {group_going_on, group_overrun};

    reveal(CpuModel::executing);
    reveal(CpuModel::modified);
    reveal(CpuModel::stacked);
    reveal(CpuModel::jumped);
    lemma_registers_apart(c, mnemonic, 0);
    lemma_registers_apart(c.reading(addr).0, mnemonic, c.reading(addr).1);
}

/// One instruction leads on.
proof fn lemma_running_goes_on(c: CpuModel)
    requires
        c.bus.wf(),
    ensures
        c.bus.leads_to(c.running().0.bus),
        c.bus.passes_to(c.running().0.bus),
        c.running().0.bus.overrun() <= c.bus.overrun() + 6000,
{
    broadcast use {group_going_on, group_overrun};

    reveal(CpuModel::running);
    lemma_leads_to_itself(c.bus);
    let (f, opcode) = c.fetching();
    let info = decoded(opcode);
    law_opcode_sizes(opcode);
    lemma_locating_goes_on(c.bus, f, info.mode);
    let (l, operand) = f.locating(info.mode);
    let lead = operand.cycles(info) - 1;
    lemma_caught_up_goes_on(c.bus, l, lead, operand.dummy(info));
    let r = l.caught_up(lead, operand.dummy(info));
    lemma_executing_goes_on(
        c.bus,
        CpuModel { irq_sample: r.bus.interrupts(), ..r },
        info.mnemonic,
        info.mode,
        operand.addr,
    );
}

/// A step leads on, and brings the machine closer to vertical blank until a frame is completed. It
/// is shorter than vertical blank.
pub proof fn law_every_step_goes_on(c: CpuModel)
    requires
        c.bus.wf(),
    ensures
        c.bus.leads_to(c.stepping().0.bus),
        c.bus.passes_to(c.stepping().0.bus),
        c.stepping().0.bus.overrun() <= c.bus.overrun() + 6000,
{
    broadcast use {group_going_on, group_overrun};

    reveal(CpuModel::stepping);
    lemma_leads_to_itself(c.bus);
    lemma_nmi_leads(c.bus);
    lemma_leads_to_wf(c.bus, c.bus.nmi_polled());
    let p = c.nmi_polled();
    assert(p.bus.overrun() == c.bus.overrun()) by {
        reveal(BusModel::overrun);
        reveal(BusModel::nmi_polled);
    }
    lemma_interrupted_goes_on(c.bus, p, 0xFFFA);
    lemma_interrupted_goes_on(c.bus, p, 0xFFFE);
    lemma_running_goes_on(p);
    lemma_leads_on(c.bus, p.bus, p.running().0.bus);
}

proof fn lemma_frame_completes_after(c: CpuModel, done: nat)
    requires
        c.bus.wf(),
        c.after(done).bus.wf(),
        forall|k: nat| k < done ==> !#[trigger] c.after(k).frame_done(),
    ensures
        exists|n: nat| c.completes_at(n),
    decreases c.after(done).bus.ppu().dots_to_vblank(),
{
    let here = c.after(done);
    if here.frame_done() {
        assert(c.completes_at(done));
    } else {
        law_every_step_goes_on(here);
        let next = c.after(done + 1);
        assert(next == here.stepping().0);
        lemma_leads_to_wf(here.bus, next.bus);
        reveal(BusModel::passes_to);
        reveal(BusModel::wf);
        if next.frame_done() {
            assert(c.completes_at(done + 1));
        } else {
            lemma_frame_completes_after(c, done + 1);
        }
    }
}

/// A machine always completes a frame, and the number of steps it takes is the only one at which
/// it does.
pub proof fn law_a_frame_always_completes(c: CpuModel)
    requires
        c.bus.wf(),
    ensures
        c.completes_at(c.frame_steps()),
        forall|n: nat| #[trigger] c.completes_at(n) ==> n == c.frame_steps(),
{
    assert(c.after(0) == c);
    lemma_frame_completes_after(c, 0);
    let m = c.frame_steps();
    assert(c.completes_at(m));
    assert forall|n: nat| #[trigger] c.completes_at(n) implies n == m by {
        if n < m {
            assert(!c.after(n).frame_done());
        } else if m < n {
            assert(!c.after(m).frame_done());
        }
    }
}

proof fn lemma_reset_goes_on(m: NesModel)
    requires
        m.wf(),
    ensures
        m.cpu.bus.leads_to(m.was_reset().cpu.bus),
{
    broadcast use group_going_on;

    let b = m.cpu.bus;
    let r = b.with_ppu(b.ppu().was_reset()).with_apu(b.apu().was_reset(true));
    assert(b.leads_to(r)) by {
        reveal(BusModel::wf);
        reveal(BusModel::leads_to);
        law_apu_stays_wf(b.apu(), 0, 0, 0, true, b.cart());
    }
}

pub proof fn lemma_begun_goes_on(m: NesModel, input: FrameInput)
    requires
        m.wf(),
    ensures
        m.begun(input).wf(),
        m.sound() ==> m.begun(input).sound(),
        m.begun(input).cpu.bus.cart().same_rom(m.cpu.bus.cart()),
{
    lemma_reset_goes_on(m);
    lemma_leads_to_itself(m.cpu.bus);
    let r = if input.reset { m.was_reset() } else { m };
    lemma_leads_to_wf(m.cpu.bus, r.cpu.bus);
    reveal(BusModel::wf);
}

proof fn lemma_steps_go_on(c: CpuModel, n: nat)
    requires
        c.bus.wf(),
    ensures
        c.bus.leads_to(c.after(n).bus),
    decreases n,
{
    lemma_leads_to_itself(c.bus);
    if n > 0 {
        let m = (n - 1) as nat;
        lemma_steps_go_on(c, m);
        lemma_leads_to_wf(c.bus, c.after(m).bus);
        law_every_step_goes_on(c.after(m));
        lemma_leads_on(c.bus, c.after(m).bus, c.after(n).bus);
    }
}

/// A frame leaves a machine that can go on, with the same ROM; one that ran from power-on stays
/// one.
pub proof fn law_every_frame_goes_on(m: NesModel, input: FrameInput)
    requires
        m.wf(),
    ensures
        m.ran_frame(input).wf(),
        m.sound() ==> m.ran_frame(input).sound(),
        m.ran_frame(input).cpu.bus.cart().same_rom(m.cpu.bus.cart()),
        m.ran_frame(input).frame_count == m.frame_count.wrapping_add(1),
{
    reveal(NesModel::ran_frame);
    lemma_begun_goes_on(m, input);
    let c = m.begun(input).cpu;
    let n = c.frame_steps();
    lemma_steps_go_on(c, n);
    lemma_leads_to_wf(c.bus, c.after(n).bus);
    reveal(BusModel::wf);
}

/// So do any number of frames.
pub proof fn law_frames_go_on(m: NesModel, inputs: Seq<FrameInput>)
    requires
        m.wf(),
    ensures
        m.ran_frames(inputs).wf(),
        m.sound() ==> m.ran_frames(inputs).sound(),
        m.ran_frames(inputs).cpu.bus.cart().same_rom(m.cpu.bus.cart()),
    decreases inputs.len(),
{
    if inputs.len() > 0 {
        law_frames_go_on(m, inputs.drop_last());
        law_every_frame_goes_on(m.ran_frames(inputs.drop_last()), inputs.last());
    }
}

/// A frame ends in vertical blank, before any line of the next one is painted.
pub proof fn law_a_frame_ends_in_vblank(m: NesModel, input: FrameInput)
    requires
        m.wf(),
    ensures
        m.ran_frame(input).between_frames(),
{
    reveal(NesModel::ran_frame);
    lemma_begun_goes_on(m, input);
    let c = m.begun(input).cpu;
    law_a_frame_always_completes(c);
    let n = c.frame_steps();
    assert(c.after(0) == c);
    let k = (n - 1) as nat;
    assert(!c.after(k).frame_done());
    lemma_steps_go_on(c, k);
    lemma_leads_to_wf(c.bus, c.after(k).bus);
    law_every_step_goes_on(c.after(k));
    assert(c.after(n) == c.after(k).stepping().0);
    reveal(BusModel::overrun);
}

/// A ROM that boots gives a machine that runs from power-on.
pub proof fn law_a_booted_machine_is_sound(rom: Seq<u8>, rom_id: RomId)
    requires
        boot_refusal(rom) is None,
    ensures
        NesModel::booted(rom, rom_id).wf(),
        NesModel::booted(rom, rom_id).sound(),
        NesModel::booted(rom, rom_id).cpu.bus.cart().same_rom(ines::cartridge_in(rom, rom_id)),
{
    broadcast use group_going_on;

    let cart = ines::cartridge_in(rom, rom_id);
    let b = BusModel::powered_on(cart);
    assert(b.wf() && b.sound()) by {
        reveal(BusModel::wf);
        ines::lemma_cartridge_is_valid(rom, rom_id);
    }
    lemma_leads_to_itself(b);
    lemma_leads_to_wf(b, NesModel::booted(rom, rom_id).cpu.bus);
}

} // verus!

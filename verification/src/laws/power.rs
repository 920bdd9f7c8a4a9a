//! Power-on and reset.

use vstd::prelude::*;

use super::words::{lemma_fields, lemma_shifts};
use crate::apu::ApuCore;
use crate::bus::BusModel;
use crate::cartridge::CartModel;
use crate::cpu::CpuModel;
use crate::ppu::PpuModel;

verus! {

/// At power-on no channel sounds and nothing is asked of the CPU. The first pulse is the one that
/// sweeps down by one more, and the noise register has a bit set, so it will run.
pub proof fn law_sound_begins_in_silence()
    ensures
        ({
            let u = ApuCore::powered_on();
            &&& u.wf()
            &&& u.status() == 0
            &&& !u.interrupts()
            &&& u.pulse0.level() == 0
            &&& u.pulse1.level() == 0
            &&& u.noise.level() == 0
            &&& u.dmc.output_level == 0
            &&& u.pulse0.ones_complement
            &&& !u.pulse1.ones_complement
            &&& u.noise.shift != 0
            &&& !u.frame.mode5
            &&& u.frame.cycle == 0
        }),
{
}

/// A reset switches all channels off and clears both interrupts. The frame counter starts over, in
/// the mode it was in if the machine was on. What the registers were told otherwise stays.
pub proof fn law_a_reset_silences(u: ApuCore, soft: bool)
    ensures
        ({
            let d = u.was_reset(soft);
            &&& d.status() == 0
            &&& !d.interrupts()
            &&& !d.pulse0.enabled && !d.pulse1.enabled && !d.triangle.enabled && !d.noise.enabled
            &&& d.pulse0.level() == 0
            &&& d.pulse1.level() == 0
            &&& d.noise.level() == 0
            &&& d.frame.mode5 == (soft && u.frame.mode5)
            &&& d.frame.cycle == 0 && d.frame.step == 0 && d.frame.write_delay == 0
            &&& !d.frame.inhibit_irq
            &&& d.pulse0.timer_period == u.pulse0.timer_period
            &&& d.pulse1.timer_period == u.pulse1.timer_period
            &&& d.triangle.timer_period == u.triangle.timer_period
            &&& d.noise.period_index == u.noise.period_index && d.noise.shift == u.noise.shift
            &&& d.dmc.output_level == u.dmc.output_level
            &&& d.cycles == u.cycles
            &&& d.dmc_stall == 0
        }),
{
}

/// A reset of the picture unit switches rendering and the NMI off and makes the next write of a pair
/// a first one. Memory, the position and the beam stay.
pub proof fn law_a_reset_blanks_the_picture(m: PpuModel)
    ensures
        ({
            let d = m.was_reset();
            &&& d.ctrl == 0 && d.mask == 0 && d.data_buffer == 0
            &&& !d.rendering()
            &&& !d.w
            &&& !d.nmi_line && !d.nmi_pending && !d.nmi_delay
            &&& d == PpuModel {
                ctrl: 0,
                mask: 0,
                data_buffer: 0,
                w: false,
                nmi_line: false,
                nmi_pending: false,
                nmi_delay: false,
                ..m
            }
        }),
{
    lemma_zero();
}

proof fn lemma_zero()
    ensures
        0u8 & 0x18 == 0,
{
    lemma_fields(0);
    lemma_shifts(0);
}

/// At power-on all memory is zero, the beam is at the first dot, and nothing is shown yet.
pub proof fn law_power_on_is_blank(cart: CartModel, i: int)
    ensures
        ({
            let b = BusModel::powered_on(cart);
            let m = b.ppu();
            &&& b.cart() == cart
            &&& !b.flat()
            &&& b.ram.len() == 0x0800
            &&& 0 <= i < 0x0800 ==> b.ram[i] == 0
            &&& b.total_cycles == 0
            &&& b.pending_oam_dma is None
            &&& b.apu().core == ApuCore::powered_on()
            &&& m.wf()
            &&& m.scanline == 0 && m.cycle == 0
            &&& m.v == 0 && m.t == 0 && m.fine_x == 0 && !m.w
            &&& m.ctrl == 0 && m.mask == 0 && m.status == 0
            &&& 0 <= i < 256 ==> m.oam[i] == 0
            &&& 0 <= i < 2048 ==> m.vram[i] == 0
            &&& 0 <= i < 32 ==> m.palette[i] == 0
            &&& 0 <= i < m.screen.len() ==> m.screen[i] == 0
            &&& !m.nmi_pending && !m.frame_done && !m.odd_frame
            &&& m.output_enabled
        }),
{
}

/// The CPU begins with its registers at zero, the stack pointer at `$FD` and interrupts masked.
pub proof fn law_the_cpu_begins(bus: BusModel)
    ensures
        ({
            let c = CpuModel::powered_on(bus);
            &&& c.a == 0 && c.x == 0 && c.y == 0
            &&& c.sp == 0xFD
            &&& c.status.flag(2)
            &&& !c.status.flag(0) && !c.status.flag(1) && !c.status.flag(3)
            &&& !c.jammed && !c.irq_sample && c.irq_masked
            &&& c.bus == bus
        }),
{
    lemma_fields(0x24);
}

} // verus!

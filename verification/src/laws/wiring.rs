//! Which unit answers at an address, and how the units keep time with the CPU.

use vstd::prelude::*;

use super::channels::law_channels_are_switched;
use super::memory::law_dma_copies_the_page;
use super::words::{bit, lemma_shifts, lemma_word_fields, one_if};
use crate::bus::BusModel;
use crate::cartridge::CartModel;
use crate::ppu::PpuModel;

verus! {

proof fn lemma_register(m: PpuModel, addr: u16, value: u8, cart: CartModel)
    ensures
        ({
            let reg = (0x2000 + (addr & 7)) as u16;
            &&& m.register_peek(reg) == m.register_peek(addr)
            &&& m.register_read(reg, cart) == m.register_read(addr, cart)
            &&& m.register_written(reg, value, cart) == m.register_written(addr, value, cart)
            &&& m.cart_written(reg, value, cart) == m.cart_written(addr, value, cart)
        }),
{
    reveal(PpuModel::register_read);
    reveal(PpuModel::register_written);
    let reg = (0x2000 + (addr & 7)) as u16;
    assert(reg & 7 == addr & 7) by {
        lemma_word_fields(addr);
        lemma_word_fields(reg);
    }
}

/// RAM is at `$0000`, the registers of the PPU at `$2000`, the status of the APU at `$4015` with
/// bit 5 of the data bus, the buttons at `$4016` and `$4017` under
/// three bits of the data bus, the cartridge's RAM at `$6000` and its program at `$8000`. Where
/// nothing answers, the data bus keeps its value.
#[verifier::rlimit(40)]
pub proof fn law_reads_reach_their_unit(b: BusModel, addr: u16)
    requires
        !b.flat(),
    ensures
        ({
            let v = b.value_read(addr);
            &&& addr < 0x2000 ==> v == b.ram[addr as int % 0x0800]
            &&& 0x2000 <= addr < 0x4000 ==> v == b.ppu().register_peek(addr)
            &&& addr == 0x4015 ==> v == b.apu().synced(b.cart()).core.status() + 32 * (b.open_bus
                / 32 % 2)
            &&& addr == 0x4016 ==> v == 32 * (b.open_bus / 32) + one_if(b.pad0.bit() == 1)
            &&& addr == 0x4017 ==> v == 32 * (b.open_bus / 32) + one_if(b.pad1.bit() == 1)
            &&& 0x4000 <= addr < 0x6000 && addr != 0x4015 && addr != 0x4016 && addr != 0x4017
                ==> v == b.open_bus
            &&& 0x6000 <= addr < 0x8000 ==> v == if b.cart().mapper.ram_on() {
                b.cart().prg_ram[addr - 0x6000]
            } else {
                b.open_bus
            }
            &&& addr >= 0x8000 ==> v == b.cart().prg_byte(addr)
        }),
{
    reveal(BusModel::value_read);
    lemma_register(b.ppu(), addr, 0, b.cart());
    let core = b.apu().synced(b.cart()).core;
    law_channels_are_switched(core, 0);
    lemma_pad(b.open_bus, core.status());
    lemma_pad(b.open_bus, b.pad0.bit());
    lemma_pad(b.open_bus, b.pad1.bit());
    assert(b.pad0.bit() <= 1 && b.pad1.bit() <= 1) by {
        crate::bits::lemma_mask_u8(b.pad0.shift);
        crate::bits::lemma_mask_u8(b.pad0.state.raw);
        crate::bits::lemma_mask_u8(b.pad1.shift);
        crate::bits::lemma_mask_u8(b.pad1.state.raw);
    }
    assert(addr & 0x07FF == addr % 0x0800) by {
        lemma_word_fields(addr);
    }
}

proof fn lemma_pad(latch: u8, pad: u8)
    by (bit_vector)
    ensures
        pad <= 1 ==> (latch & 0xE0) | pad == 32 * (latch / 32) + pad,
        pad / 32 % 2 == 0 ==> pad | (latch & 0x20) == pad + 32 * (latch / 32 % 2),
{
}

/// A read leaves its value on the data bus, except that of the APU's status, which clears the frame
/// interrupt. A read of the buttons moves on to the next, a read of the PPU does what the register
/// does, and no other read changes anything.
pub proof fn law_reads_leave_their_value(b: BusModel, addr: u16)
    requires
        !b.flat(),
    ensures
        ({
            let d = b.after_read(addr);
            let status = addr == 0x4015;
            &&& !status ==> d.open_bus == b.value_read(addr)
            &&& status ==> d.open_bus == b.open_bus && !d.apu().core.frame_irq
            &&& !status ==> d.apu() == b.apu()
            &&& d.ram == b.ram
            &&& d.cart() == b.cart()
            &&& d.total_cycles == b.total_cycles
            &&& d.pending_oam_dma == b.pending_oam_dma
            &&& d.ppu() == if 0x2000 <= addr < 0x4000 {
                b.ppu().register_read(addr, b.cart())
            } else {
                b.ppu()
            }
            &&& d.pad0 == if addr == 0x4016 { b.pad0.shifted() } else { b.pad0 }
            &&& d.pad1 == if addr == 0x4017 { b.pad1.shifted() } else { b.pad1 }
        }),
{
    reveal(BusModel::value_read);
    reveal(BusModel::after_read);
    lemma_register(b.ppu(), addr, 0, b.cart());
}

/// A write changes one byte of RAM, or of the cartridge's RAM while that is on, or reaches the PPU,
/// the APU, the mapper or the buttons by its address, or asks for a copy of a page to the sprites;
/// each changes nothing else. Every write leaves its value on the data bus.
#[verifier::rlimit(40)]
pub proof fn law_writes_reach_their_unit(b: BusModel, addr: u16, value: u8, consecutive: bool)
    requires
        b.wf(),
        !b.flat(),
    ensures
        ({
            let d = b.written(addr, value, consecutive);
            let apu = 0x4000 <= addr < 0x4018 && addr != 0x4014 && addr != 0x4016;
            let ppu = 0x2000 <= addr < 0x4000;
            &&& d.open_bus == value
            &&& d.total_cycles == b.total_cycles
            &&& d.ram == if addr < 0x2000 {
                b.ram.update(addr as int % 0x0800, value)
            } else {
                b.ram
            }
            &&& d.ppu() == if ppu { b.ppu().register_written(addr, value, b.cart()) } else { b.ppu() }
            &&& !apu ==> d.apu() == b.apu()
            &&& apu ==> d.apu().core == b.apu().synced(b.cart()).core.register_written(addr, value)
            &&& d.pending_oam_dma == if addr == 0x4014 { Some(value) } else { b.pending_oam_dma }
            &&& d.pad0 == if addr == 0x4016 { b.pad0.strobed(bit(value, 0)) } else { b.pad0 }
            &&& d.pad1 == if addr == 0x4016 { b.pad1.strobed(bit(value, 0)) } else { b.pad1 }
            &&& d.cart() == if ppu {
                b.ppu().cart_written(addr, value, b.cart())
            } else if 0x6000 <= addr < 0x8000 && b.cart().mapper.ram_on() {
                CartModel { prg_ram: b.cart().prg_ram.update(addr - 0x6000, value), ..b.cart() }
            } else if addr >= 0x8000 {
                CartModel {
                    mapper: b.cart().mapper.written(addr, value, consecutive),
                    ..b.cart()
                }
            } else {
                b.cart()
            }
        }),
{
    reveal(BusModel::written);
    lemma_register(b.ppu(), addr, value, b.cart());
    lemma_shifts(value);
    assert(addr & 0x07FF == addr % 0x0800) by {
        lemma_word_fields(addr);
    }
}

/// In one CPU cycle the PPU goes through three dots and the APU through one cycle. Cycles in which
/// the APU held the CPU for a sample pass as well, for all.
pub proof fn law_units_keep_time(b: BusModel, n: int)
    requires
        n >= 0,
    ensures
        ({
            let d = b.advanced(n);
            let a = b.apu().stepped(n, b.cart());
            let stall = a.core.dmc_stall as int;
            &&& d.ram == b.ram && d.cart() == b.cart() && d.open_bus == b.open_bus
            &&& d.pad0 == b.pad0 && d.pad1 == b.pad1
            &&& d.ppu() == b.ppu().stepped((3 * (n + stall)) as nat, b.cart())
            &&& stall == 0 ==> d.apu() == a && d.total_cycles == b.total_cycles.wrapping_add(
                n as u64,
            )
            &&& stall > 0 ==> d.total_cycles == b.total_cycles.wrapping_add(
                n as u64,
            ).wrapping_add(stall as u64)
        }),
{
    reveal(BusModel::advanced);
    let stall = b.apu().stepped(n, b.cart()).core.dmc_stall as int;
    lemma_dots_add_up(b.ppu(), (3 * n) as nat, (3 * stall) as nat, b.cart());
}

proof fn lemma_dots_add_up(m: PpuModel, a: nat, b: nat, cart: CartModel)
    ensures
        m.stepped(a, cart).stepped(b, cart) == m.stepped(a + b, cart),
    decreases b,
{
    if b > 0 {
        lemma_dots_add_up(m, a, (b - 1) as nat, cart);
    }
}

/// A copy to the sprites that was asked for fills them with the page, from where OAMADDR points and
/// around, and takes 513 cycles, or 514 from an odd cycle on. Where none was asked for, nothing
/// happens.
#[verifier::rlimit(40)]
pub proof fn law_the_copy_takes_its_time(b: BusModel, i: int)
    requires
        b.wf(),
        !b.flat(),
        b.pending_oam_dma is Some ==> b.pending_oam_dma->0 < 0x20,
        0 <= i < 256,
    ensures
        b.pending_oam_dma is None ==> b.dma_run() == b,
        b.pending_oam_dma is Some ==> {
            let page = b.pending_oam_dma->0;
            let begun = BusModel { pending_oam_dma: None, ..b };
            let copied = begun.copied((256 * page) as u16, 256);
            &&& b.dma_run() == copied.advanced(513 + copied.total_cycles % 2)
            &&& copied.total_cycles == b.total_cycles
            &&& copied.ppu().oam[(b.ppu().oam_addr + i) % 256] == b.ram[(256 * page + i) % 0x0800]
            &&& copied.pending_oam_dma is None
        },
{
    reveal(BusModel::dma_run);
    if b.pending_oam_dma is Some {
        let begun = BusModel { pending_oam_dma: None, ..b };
        assert(begun.wf()) by {
            reveal(BusModel::wf);
        }
        law_dma_copies_the_page(begun, b.pending_oam_dma->0, 256, i);
        lemma_copy(begun, (256 * b.pending_oam_dma->0) as u16, 256);
    }
}

proof fn lemma_copy(b: BusModel, base: u16, n: int)
    requires
        0 <= n,
    ensures
        b.copied(base, n).total_cycles == b.total_cycles,
        b.copied(base, n).pending_oam_dma == b.pending_oam_dma,
    decreases n,
{
    reveal(BusModel::after_read);
    if n > 0 {
        lemma_copy(b, base, n - 1);
    }
}

} // verus!

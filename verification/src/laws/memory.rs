//! What reads, writes and resets do to memory.

use vstd::prelude::*;

use crate::bits::lemma_mask_u16;
use crate::bus::BusModel;
use crate::cartridge::CartModel;
use crate::cpu::CpuModel;
use crate::nes::NesModel;
use crate::ppu::PpuModel;

verus! {

/// Looking at an address shows what a read would give. Only the status of the APU can change
/// before it is read, in the cycle of the access.
pub proof fn law_a_peek_shows_what_a_read_gives(b: BusModel, addr: u16)
    requires
        addr != 0x4015 || b.flat() || b.apu().core.ahead != 0,
    ensures
        b.peeked(addr) == b.value_read(addr),
{
    reveal(BusModel::value_read);
}

/// The RAM repeats every `$0800`: what is written at one address is read at all that mean it.
pub proof fn law_ram_repeats(b: BusModel, addr: u16, other: u16, value: u8)
    requires
        b.wf(),
        !b.flat(),
        addr < 0x2000,
        other < 0x2000,
        addr & 0x07FF == other & 0x07FF,
    ensures
        b.written(addr, value, false).value_read(other) == value,
        b.value_read(addr) == b.value_read(other),
{
    broadcast use lemma_mask_u16;

    reveal(BusModel::wf);
    reveal(BusModel::written);
    reveal(BusModel::value_read);
}

/// The registers of the PPU repeat every eight bytes.
pub proof fn law_ppu_registers_repeat(b: BusModel, addr: u16, other: u16, value: u8)
    requires
        !b.flat(),
        0x2000 <= addr < 0x4000,
        0x2000 <= other < 0x4000,
        addr & 7 == other & 7,
    ensures
        b.value_read(addr) == b.value_read(other),
        b.after_read(addr) == b.after_read(other),
        b.written(addr, value, false) == b.written(other, value, false),
{
    reveal(BusModel::value_read);
    reveal(BusModel::after_read);
    reveal(BusModel::written);
}

/// PRG-RAM gives back what is written while it is enabled; while it is not, a write changes
/// nothing in the cartridge and a read gives what is on the data bus.
pub proof fn law_prg_ram_obeys_the_mapper(b: BusModel, addr: u16, value: u8)
    requires
        b.wf(),
        !b.flat(),
        0x6000 <= addr < 0x8000,
    ensures
        b.cart().mapper.ram_on() ==> b.written(addr, value, false).value_read(addr) == value,
        !b.cart().mapper.ram_on() ==> b.written(addr, value, false).cart() == b.cart(),
        !b.cart().mapper.ram_on() ==> b.value_read(addr) == b.open_bus,
{
    reveal(BusModel::wf);
    reveal(BusModel::written);
    reveal(BusModel::value_read);
}

/// What is pushed is popped, and the stack pointer is back where it was, wherever that is.
pub proof fn law_what_is_pushed_is_popped(c: CpuModel, value: u8)
    requires
        c.bus.wf(),
        !c.bus.flat(),
    ensures
        c.pushed(value).popping().1 == value,
        c.pushed(value).popping().0.sp == c.sp,
{
    let addr = (0x0100 + c.sp) as u16;
    law_ram_repeats(c.bus, addr, addr, value);
    assert(c.sp.wrapping_sub(1).wrapping_add(1) == c.sp);
}

/// An OAM DMA from RAM fills the sprite memory with the page, beginning where OAMADDR points and
/// going round.
pub proof fn law_dma_copies_the_page(b: BusModel, page: u8, n: int, i: int)
    requires
        b.wf(),
        !b.flat(),
        page < 0x20,
        0 <= i < n <= 256,
    ensures
        ({
            let after = b.copied((page * 256) as u16, n);
            &&& after.ppu().oam[(b.ppu().oam_addr + i) % 256] == b.ram[(page * 256 + i) % 0x0800]
            &&& after.ppu().oam_addr == b.ppu().oam_addr
        }),
    decreases n,
{
    lemma_page_copied(b, page, n);
}

proof fn lemma_page_copied(b: BusModel, page: u8, n: int)
    requires
        b.wf(),
        !b.flat(),
        page < 0x20,
        0 <= n <= 256,
    ensures
        ({
            let after = b.copied((page * 256) as u16, n);
            &&& after.ppu().oam.len() == 256
            &&& after.ppu().oam_addr == b.ppu().oam_addr
            &&& after.ram == b.ram
            &&& !after.flat()
            &&& forall|i: int|
                0 <= i < n ==> #[trigger] after.ppu().oam[(b.ppu().oam_addr + i) % 256]
                    == b.ram[(page * 256 + i) % 0x0800]
        }),
    decreases n,
{
    reveal(BusModel::wf);
    if n > 0 {
        lemma_page_copied(b, page, n - 1);
        let base = (page * 256) as u16;
        let before = b.copied(base, n - 1);
        let addr = base.wrapping_add((n - 1) as u16);
        let position = b.ppu().oam_addr.wrapping_add((n - 1) as u8);
        assert(addr == page * 256 + n - 1);
        assert(position == (b.ppu().oam_addr + n - 1) % 256);
        assert(addr & 0x07FF == addr % 0x0800) by (bit_vector);
        reveal(BusModel::value_read);
        reveal(BusModel::after_read);
        assert(before.value_read(addr) == b.ram[(page * 256 + n - 1) % 0x0800]);
        let after = b.copied(base, n);
        assert forall|i: int| 0 <= i < n implies #[trigger] after.ppu().oam[(b.ppu().oam_addr + i)
            % 256] == b.ram[(page * 256 + i) % 0x0800] by {
            if i < n - 1 {
                assert(before.ppu().oam[(b.ppu().oam_addr + i) % 256] == b.ram[(page * 256 + i)
                    % 0x0800]);
            }
        }
    }
}

proof fn lemma_dots_keep_memory(p: PpuModel, n: nat, cart: CartModel)
    ensures
        p.stepped(n, cart).vram == p.vram,
        p.stepped(n, cart).oam == p.oam,
        p.stepped(n, cart).palette == p.palette,
    decreases n,
{
    if n > 0 {
        lemma_dots_keep_memory(p, (n - 1) as nat, cart);
        let q = p.stepped((n - 1) as nat, cart);
        reveal(PpuModel::line_events);
        reveal(PpuModel::scroll_events);
        reveal(PpuModel::dot_advanced);
    }
}

/// Time passes without changing memory.
pub proof fn lemma_time_keeps_memory(b: BusModel, n: int)
    ensures
        b.advanced(n).ram == b.ram,
        b.advanced(n).ppu().vram == b.ppu().vram,
        b.advanced(n).ppu().oam == b.ppu().oam,
        b.advanced(n).ppu().palette == b.ppu().palette,
        b.advanced(n).cart() == b.cart(),
{
    reveal(BusModel::advanced);
    let c = b.ran(n);
    let stall = c.apu().core.dmc_stall as int;
    lemma_dots_keep_memory(b.ppu(), (3 * n) as nat, b.cart());
    lemma_dots_keep_memory(c.stall_cleared().ppu(), (3 * stall) as nat, c.cart());
}

/// The reset button leaves the RAM, the memory of the PPU and the cartridge as they are.
pub proof fn law_a_reset_keeps_memory(m: NesModel)
    requires
        !m.cpu.bus.flat(),
    ensures
        ({
            let before = m.cpu.bus;
            let after = m.was_reset().cpu.bus;
            &&& after.ram == before.ram
            &&& after.ppu().vram == before.ppu().vram
            &&& after.ppu().oam == before.ppu().oam
            &&& after.ppu().palette == before.ppu().palette
            &&& after.cart() == before.cart()
        }),
{
    let b = m.cpu.bus;
    let r = b.with_ppu(b.ppu().was_reset()).with_apu(b.apu().was_reset(true));
    let low = r.after_read(0xFFFC);
    let high = low.after_read(0xFFFD);
    reveal(BusModel::after_read);
    lemma_time_keeps_memory(high, 7);
}

} // verus!

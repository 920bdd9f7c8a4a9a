//! The system bus: it decodes CPU addresses and keeps the other units in step with the CPU.
//!
//! | Range           | What answers                                                   |
//! |-----------------|----------------------------------------------------------------|
//! | `$0000-$1FFF`   | 2 KB of RAM, repeated every `$0800`                            |
//! | `$2000-$3FFF`   | PPU registers, repeated every 8 bytes                          |
//! | `$4000-$4013`   | APU registers, write only                                      |
//! | `$4014`         | OAM DMA                                                        |
//! | `$4015`         | APU status                                                     |
//! | `$4016-$4017`   | controllers; writing `$4017` reaches the APU's frame counter   |
//! | `$4018-$5FFF`   | nothing                                                        |
//! | `$6000-$7FFF`   | PRG-RAM, where the mapper enables it                           |
//! | `$8000-$FFFF`   | PRG-ROM; writes reach the mapper's registers                   |
//!
//! Where nothing answers, a read gives the value that was last on the data bus.

use vstd::prelude::*;

use crate::apu::{law_apu_stays_wf, law_fetches_are_rare, Apu, ApuCore, ApuModel};
use crate::bits::lemma_mask_u16;
use crate::cartridge::{CartModel, Cartridge, CHR_RAM_SIZE, PRG_RAM_SIZE};
use crate::fingerprint::{put_bool, put_bytes, put_u64, put_u8, Fp};
use crate::joypad::{Buttons, Joypad};
use crate::ppu::{
    law_dots_lead_to_vblank, lemma_register_read, lemma_register_written, Ppu, PpuModel,
};
use crate::state::wire::{Reader, Writer};

verus! {

/// The size of the internal RAM.
pub const RAM_SIZE: usize = 0x0800;

/// The size of the CPU's address space.
pub const ADDRESS_SPACE: usize = 0x1_0000;

#[derive(Debug, Clone)]
pub struct Bus {
    /// The internal RAM.
    pub ram: Vec<u8>,
    pub ppu: Ppu,
    pub apu: Apu,
    pub cartridge: Cartridge,
    pub joypads: [Joypad; 2],
    /// All CPU cycles so far.
    pub total_cycles: u64,
    /// The value that was last on the data bus.
    pub open_bus: u8,
    /// The source page of an OAM DMA that `$4014` asked for. The CPU runs it at the end of the
    /// instruction.
    pub pending_oam_dma: Option<u8>,
    /// Empty, or 64 KB that answer every address in place of the machine.
    flat_ram: Vec<u8>,
    /// The accesses to such a memory: address, value, and whether it was a write.
    access_log: Vec<(u16, u8, bool)>,
}

/// The bus and what is attached to it, as a value.
pub struct BusModel {
    pub ram: Seq<u8>,
    /// The PPU, the APU and the cartridge.
    pub units: (PpuModel, ApuModel, CartModel),
    pub pad0: Joypad,
    pub pad1: Joypad,
    pub total_cycles: u64,
    pub open_bus: u8,
    pub pending_oam_dma: Option<u8>,
    pub flat_ram: Seq<u8>,
    pub access_log: Seq<(u16, u8, bool)>,
}

impl View for Bus {
    type V = BusModel;

    closed spec fn view(&self) -> BusModel {
        BusModel {
            ram: self.ram@,
            units: (self.ppu@, self.apu@, self.cartridge@),
            pad0: self.joypads@[0],
            pad1: self.joypads@[1],
            total_cycles: self.total_cycles,
            open_bus: self.open_bus,
            pending_oam_dma: self.pending_oam_dma,
            flat_ram: self.flat_ram@,
            access_log: self.access_log@,
        }
    }
}

/// The register, `$2000` to `$2007`, that an address in `$2000-$3FFF` means.
pub fn mirror_ppu_register(addr: u16) -> (reg: u16)
    ensures
        reg == 0x2000 + (addr & 7),
{
    broadcast use lemma_mask_u16;

    0x2000 + (addr & 7)
}

impl BusModel {
    pub open spec fn powered_on(cart: CartModel) -> BusModel {
        BusModel {
            ram: Seq::new(0x0800, |i: int| 0u8),
            units: (PpuModel::powered_on(), ApuModel::powered_on(), cart),
            pad0: Joypad::idle(),
            pad1: Joypad::idle(),
            total_cycles: 0,
            open_bus: 0,
            pending_oam_dma: None,
            flat_ram: Seq::empty(),
            access_log: Seq::empty(),
        }
    }

    pub open spec fn ppu(self) -> PpuModel {
        self.units.0
    }

    pub open spec fn apu(self) -> ApuModel {
        self.units.1
    }

    pub open spec fn cart(self) -> CartModel {
        self.units.2
    }

    pub open spec fn with_ppu(self, ppu: PpuModel) -> BusModel {
        BusModel { units: (ppu, self.units.1, self.units.2), ..self }
    }

    pub open spec fn with_apu(self, apu: ApuModel) -> BusModel {
        BusModel { units: (self.units.0, apu, self.units.2), ..self }
    }

    pub open spec fn with_cart(self, cart: CartModel) -> BusModel {
        BusModel { units: (self.units.0, self.units.1, cart), ..self }
    }

    /// Whether the CPU serves an NMI now.
    #[verifier::opaque]
    pub open spec fn nmi_ready(self) -> bool {
        self.ppu().nmi_ready()
    }

    /// The machine after the CPU looked for an NMI.
    #[verifier::opaque]
    pub open spec fn nmi_polled(self) -> BusModel {
        self.with_ppu(self.ppu().nmi_taken())
    }

    /// The level of the CPU's interrupt line.
    #[verifier::opaque]
    pub open spec fn interrupts(self) -> bool {
        self.apu().core.interrupts()
    }

    /// What every operation needs and keeps.
    #[verifier::opaque]
    pub open spec fn wf(self) -> bool {
        &&& self.ram.len() == 0x0800
        &&& self.ppu().wf()
        &&& self.apu().core.wf()
        &&& self.cart().wf()
        &&& self.flat_ram.len() == 0 || self.flat_ram.len() == 0x1_0000
        &&& self.apu().core.dmc_stall <= 64 + 8 * self.apu().core.ahead
    }

    /// What holds of a machine that ran from power-on.
    pub open spec fn sound(self) -> bool {
        &&& self.wf()
        &&& !self.flat()
        &&& self.access_log.len() == 0
        &&& self.ppu().sound()
        &&& self.cart().valid()
        &&& self.apu().core.dmc_stall <= 8 + 8 * self.apu().core.ahead
    }

    /// The fields are in the range of the hardware. What a save state has to satisfy.
    pub open spec fn valid(self) -> bool {
        &&& self.ram.len() == 0x0800
        &&& self.ppu().valid()
        &&& self.apu().core.valid()
        &&& self.cart().valid()
    }

    /// `later` can follow `self`: it is as well-formed, has the same ROM, and is no further from
    /// vertical blank unless a frame was completed.
    #[verifier::opaque]
    pub open spec fn leads_to(self, later: BusModel) -> bool {
        &&& later.wf()
        &&& self.sound() ==> later.sound()
        &&& later.cart().same_rom(self.cart())
        &&& self.ppu().precedes(later.ppu())
    }

    /// A frame was completed by `later`, or it is closer to vertical blank than `self`.
    #[verifier::opaque]
    pub open spec fn passes_to(self, later: BusModel) -> bool {
        later.ppu().frame_done || later.ppu().dots_to_vblank() < self.ppu().dots_to_vblank()
    }

    /// The machine with the buttons of the two controllers pressed.
    pub open spec fn holding(self, p1: Buttons, p2: Buttons) -> BusModel {
        BusModel {
            pad0: Joypad { state: p1, ..self.pad0 },
            pad1: Joypad { state: p2, ..self.pad1 },
            ..self
        }
    }

    /// A restored machine with the ROM and the output settings of the one it replaces.
    pub open spec fn continued(self, previous: BusModel) -> BusModel {
        BusModel {
            units: (
                PpuModel { output_enabled: previous.apu().out.enabled, ..self.ppu() },
                ApuModel { core: self.apu().core, out: previous.apu().out.silenced() },
                CartModel {
                    prg_rom: previous.cart().prg_rom,
                    chr_rom: previous.cart().chr_rom,
                    ..self.cart()
                },
            ),
            ..self
        }
    }

    /// Every address is answered by one memory.
    pub open spec fn flat(self) -> bool {
        self.flat_ram.len() > 0
    }

    /// What is seen at an address without reading it.
    pub open spec fn peeked(self, addr: u16) -> u8 {
        if self.flat() {
            self.flat_ram[addr as int]
        } else if addr < 0x2000 {
            self.ram[(addr & 0x07FF) as int]
        } else if addr < 0x4000 {
            self.ppu().register_peek((0x2000 + (addr & 7)) as u16)
        } else if addr == 0x4015 {
            self.apu().core.status() | (self.open_bus & 0x20)
        } else if addr == 0x4016 {
            (self.open_bus & 0xE0) | self.pad0.bit()
        } else if addr == 0x4017 {
            (self.open_bus & 0xE0) | self.pad1.bit()
        } else if addr < 0x6000 {
            self.open_bus
        } else if addr < 0x8000 {
            if self.cart().mapper.ram_on() { self.cart().prg_ram[addr - 0x6000] } else { self.open_bus }
        } else {
            self.cart().prg_byte(addr)
        }
    }

    /// The machine in which a read of the address happens: the APU first runs the cycle in which
    /// its status is read.
    pub open spec fn before_read(self, addr: u16) -> BusModel {
        if !self.flat() && addr == 0x4015 {
            self.with_apu(self.apu().synced(self.cart()))
        } else {
            self
        }
    }

    /// What a read gives.
    #[verifier::opaque]
    pub open spec fn value_read(self, addr: u16) -> u8 {
        self.before_read(addr).peeked(addr)
    }

    /// The machine after a read. The value stays on the data bus, except that of `$4015`, which
    /// never leaves the CPU.
    #[verifier::opaque]
    pub open spec fn after_read(self, addr: u16) -> BusModel {
        let b = self.before_read(addr);
        let value = b.peeked(addr);
        if self.flat() {
            BusModel { access_log: self.access_log.push((addr, value, false)), ..self }
        } else if addr == 0x4015 {
            b.with_apu(ApuModel { core: ApuCore { frame_irq: false, ..b.apu().core }, ..b.apu() })
        } else {
            let c = if 0x2000 <= addr < 0x4000 {
                self.with_ppu(
                    self.ppu().register_read((0x2000 + (addr & 7)) as u16, self.cart()),
                )
            } else {
                self
            };
            BusModel {
                open_bus: value,
                pad0: if addr == 0x4016 { self.pad0.shifted() } else { self.pad0 },
                pad1: if addr == 0x4017 { self.pad1.shifted() } else { self.pad1 },
                ..c
            }
        }
    }

    /// An APU register that is written: `$4000-$4013`, `$4015`, `$4017`.
    pub open spec fn is_apu_register(addr: u16) -> bool {
        0x4000 <= addr <= 0x4017 && addr != 0x4014 && addr != 0x4016
    }

    /// The machine after a write; `consecutive` where the cycle before wrote too.
    #[verifier::opaque]
    pub open spec fn written(self, addr: u16, value: u8, consecutive: bool) -> BusModel {
        let b = BusModel { open_bus: value, ..self };
        if self.flat() {
            BusModel {
                flat_ram: self.flat_ram.update(addr as int, value),
                access_log: self.access_log.push((addr, value, true)),
                ..self
            }
        } else if addr < 0x2000 {
            BusModel { ram: self.ram.update((addr & 0x07FF) as int, value), ..b }
        } else if addr < 0x4000 {
            let reg = (0x2000 + (addr & 7)) as u16;
            b.with_ppu(self.ppu().register_written(reg, value, self.cart())).with_cart(
                self.ppu().cart_written(reg, value, self.cart()),
            )
        } else if BusModel::is_apu_register(addr) {
            let a = self.apu().synced(self.cart());
            b.with_apu(ApuModel { core: a.core.register_written(addr, value), ..a })
        } else if addr == 0x4014 {
            BusModel { pending_oam_dma: Some(value), ..b }
        } else if addr == 0x4016 {
            BusModel {
                pad0: self.pad0.strobed(value & 1 != 0),
                pad1: self.pad1.strobed(value & 1 != 0),
                ..b
            }
        } else if addr < 0x6000 {
            b
        } else if addr < 0x8000 {
            if self.cart().mapper.ram_on() {
                b.with_cart(
                    CartModel {
                        prg_ram: self.cart().prg_ram.update(addr - 0x6000, value),
                        ..self.cart()
                    },
                )
            } else {
                b
            }
        } else {
            b.with_cart(self.cart().prg_written(addr, value, consecutive))
        }
    }

    /// The two writes of a read-modify-write instruction: the old value, and right after it the
    /// new one.
    pub open spec fn rewritten(self, addr: u16, before: u8, after: u8) -> BusModel {
        self.written(addr, before, false).written(addr, after, true)
    }

    /// `n` CPU cycles on, sample fetches left aside.
    pub open spec fn ran(self, n: int) -> BusModel {
        BusModel {
            total_cycles: self.total_cycles.wrapping_add(n as u64),
            units: (
                self.ppu().stepped((3 * n) as nat, self.cart()),
                self.apu().stepped(n, self.cart()),
                self.cart(),
            ),
            ..self
        }
    }

    /// The cycles that sample fetches took are given back.
    pub open spec fn stall_cleared(self) -> BusModel {
        self.with_apu(
            ApuModel { core: ApuCore { dmc_stall: 0, ..self.apu().core }, ..self.apu() },
        )
    }

    /// `n` CPU cycles on, and the cycles in which sample fetches held the CPU.
    #[verifier::opaque]
    pub open spec fn advanced(self, n: int) -> BusModel {
        let b = self.ran(n);
        let stall = b.apu().core.dmc_stall;
        if stall == 0 { b } else { b.stall_cleared().ran(stall as int) }
    }

    /// The machine with one byte of the PPU's sprite memory replaced.
    pub open spec fn sprite_byte_set(self, position: u8, value: u8) -> BusModel {
        self.with_ppu(
            PpuModel { oam: self.ppu().oam.update(position as int, value), ..self.ppu() },
        )
    }

    /// The machine after the first `n` bytes of an OAM DMA from `base`.
    pub open spec fn copied(self, base: u16, n: int) -> BusModel
        decreases n,
    {
        if n <= 0 {
            self
        } else {
            let b = self.copied(base, n - 1);
            let addr = base.wrapping_add((n - 1) as u16);
            b.after_read(addr).sprite_byte_set(
                self.ppu().oam_addr.wrapping_add((n - 1) as u8),
                b.value_read(addr),
            )
        }
    }

    /// How long an OAM DMA holds the CPU: one cycle more where it starts on an odd one.
    pub open spec fn dma_cycles(self) -> int {
        513 + self.total_cycles % 2
    }

    /// The machine after the OAM DMA that waits, if one does.
    #[verifier::opaque]
    pub open spec fn dma_run(self) -> BusModel {
        match self.pending_oam_dma {
            None => self,
            Some(page) => {
                let b = BusModel { pending_oam_dma: None, ..self }.copied((page * 256) as u16, 256);
                b.advanced(b.dma_cycles())
            },
        }
    }

    /// What the bus adds to a fingerprint.
    #[verifier::opaque]
    pub open spec fn stamp(self, rest: Seq<u8>) -> Seq<u8> {
        put_bytes(
            self.ram,
            self.ppu().stamp(
                self.apu().core.stamp(
                    self.cart().stamp(self.pad0.stamp(self.pad1.stamp(self.line_stamp(rest)))),
                ),
            ),
        )
    }

    #[verifier::opaque]
    pub open spec fn line_stamp(self, rest: Seq<u8>) -> Seq<u8> {
        put_u64(
            self.total_cycles,
            put_u8(
                self.open_bus,
                match self.pending_oam_dma {
                    None => put_bool(false, rest),
                    Some(page) => put_bool(true, put_u8(page, rest)),
                },
            ),
        )
    }
}

pub broadcast proof fn lemma_leads_on(a: BusModel, b: BusModel, c: BusModel)
    requires
        #[trigger] a.leads_to(b),
        #[trigger] b.leads_to(c),
    ensures
        a.leads_to(c),
        b.passes_to(c) ==> a.passes_to(c),
        a.passes_to(b) ==> a.passes_to(c),
{
    reveal(BusModel::leads_to);
    reveal(BusModel::passes_to);
}

pub broadcast proof fn lemma_leads_to_wf(a: BusModel, b: BusModel)
    requires
        #[trigger] a.leads_to(b),
    ensures
        b.wf(),
        a.sound() ==> b.sound(),
        b.cart().same_rom(a.cart()),
{
    reveal(BusModel::leads_to);
}

pub broadcast proof fn lemma_leads_to_itself(a: BusModel)
    requires
        #[trigger] a.wf(),
    ensures
        a.leads_to(a),
{
    reveal(BusModel::leads_to);
}

/// The steps of a machine follow one another.
pub broadcast group group_leads_to {
    lemma_leads_on,
    lemma_leads_to_wf,
    lemma_leads_to_itself,
}

/// A read leads on.
pub proof fn lemma_read_leads(b: BusModel, addr: u16)
    requires
        b.wf(),
    ensures
        b.leads_to(b.after_read(addr)),
{
    reveal(BusModel::wf);
    reveal(BusModel::leads_to);
    reveal(BusModel::after_read);
    lemma_register_read(b.ppu(), (0x2000 + (addr & 7)) as u16, b.cart());
    law_apu_stays_wf(b.apu(), 0, 0, 0, false, b.cart());
    law_fetches_are_rare(b.apu(), 0, b.cart());
}

/// A write leads on.
pub proof fn lemma_write_leads(b: BusModel, addr: u16, value: u8, consecutive: bool)
    requires
        b.wf(),
    ensures
        b.leads_to(b.written(addr, value, consecutive)),
{
    if !b.flat() && 0x2000 <= addr < 0x4000 {
        lemma_ppu_write_leads(b, addr, value, consecutive);
    } else if !b.flat() && BusModel::is_apu_register(addr) {
        lemma_apu_write_leads(b, addr, value, consecutive);
    } else {
        broadcast use lemma_mask_u16;

        reveal(BusModel::wf);
        reveal(BusModel::leads_to);
        reveal(BusModel::written);
        b.cart().mapper.lemma_stays_valid(addr, value, consecutive);
    }
}

proof fn lemma_ppu_write_leads(b: BusModel, addr: u16, value: u8, consecutive: bool)
    requires
        b.wf(),
        !b.flat(),
        0x2000 <= addr < 0x4000,
    ensures
        b.leads_to(b.written(addr, value, consecutive)),
{
    reveal(BusModel::wf);
    reveal(BusModel::leads_to);
    reveal(BusModel::written);
    let reg = (0x2000 + (addr & 7)) as u16;
    lemma_register_written(b.ppu(), reg, value, b.cart());
    let cart = b.ppu().cart_written(reg, value, b.cart());
    assert(cart.wf() && (b.cart().valid() ==> cart.valid()));
}

proof fn lemma_apu_write_leads(b: BusModel, addr: u16, value: u8, consecutive: bool)
    requires
        b.wf(),
        !b.flat(),
        BusModel::is_apu_register(addr),
    ensures
        b.leads_to(b.written(addr, value, consecutive)),
{
    reveal(BusModel::wf);
    reveal(BusModel::leads_to);
    reveal(BusModel::written);
    let a = b.apu().synced(b.cart());
    law_apu_stays_wf(b.apu(), 0, 0, 0, false, b.cart());
    law_apu_stays_wf(a, 0, addr, value, false, b.cart());
    law_fetches_are_rare(b.apu(), 0, b.cart());
}

proof fn lemma_run_leads(b: BusModel, n: int)
    requires
        b.stall_cleared().wf(),
        0 <= n,
    ensures
        b.stall_cleared().leads_to(b.ran(n).stall_cleared()),
        n > 0 ==> b.stall_cleared().passes_to(b.ran(n).stall_cleared()),
        432 * b.ran(n).apu().core.dmc_stall <= 432 * b.apu().core.dmc_stall + 3452 + 4 * n,
{
    reveal(BusModel::wf);
    reveal(BusModel::leads_to);
    reveal(BusModel::passes_to);
    law_apu_stays_wf(b.apu(), n, 0, 0, false, b.cart());
    law_fetches_are_rare(b.apu(), n, b.cart());
    law_dots_lead_to_vblank(b.ppu(), (3 * n) as nat, b.cart());
}

/// Time leads on, and brings the machine closer to vertical blank.
pub proof fn lemma_advance_leads(b: BusModel, n: int)
    requires
        b.wf(),
        0 <= n <= 514,
    ensures
        b.leads_to(b.advanced(n)),
        n > 0 ==> b.passes_to(b.advanced(n)),
{
    reveal(BusModel::advanced);
    lemma_cleared(b);
    lemma_run_leads(b, n);
    let c = b.ran(n);
    let stall = c.apu().core.dmc_stall as int;
    if stall == 0 {
        lemma_uncleared(b, c);
    } else {
        lemma_leads_to_wf(b.stall_cleared(), c.stall_cleared());
        assert(c.stall_cleared().stall_cleared() == c.stall_cleared());
        lemma_run_leads(c.stall_cleared(), stall);
        let d = c.stall_cleared().ran(stall);
        lemma_leads_on(b.stall_cleared(), c.stall_cleared(), d.stall_cleared());
        lemma_uncleared(b, d);
    }
}

proof fn lemma_sprite_byte_leads(b: BusModel, position: u8, value: u8)
    requires
        b.wf(),
    ensures
        b.leads_to(b.sprite_byte_set(position, value)),
{
    reveal(BusModel::wf);
    reveal(BusModel::leads_to);
}

pub proof fn lemma_copy_leads(b: BusModel, base: u16, n: int)
    requires
        b.wf(),
    ensures
        b.leads_to(b.copied(base, n)),
    decreases n,
{
    lemma_leads_to_itself(b);
    if n > 0 {
        lemma_copy_leads(b, base, n - 1);
        let c = b.copied(base, n - 1);
        let addr = base.wrapping_add((n - 1) as u16);
        lemma_leads_to_wf(b, c);
        lemma_read_leads(c, addr);
        let d = c.after_read(addr);
        lemma_leads_on(b, c, d);
        lemma_leads_to_wf(b, d);
        lemma_sprite_byte_leads(
            d,
            b.ppu().oam_addr.wrapping_add((n - 1) as u8),
            c.value_read(addr),
        );
        lemma_leads_on(b, d, b.copied(base, n));
    }
}

/// An OAM DMA leads on.
pub proof fn lemma_dma_leads(b: BusModel)
    requires
        b.wf(),
    ensures
        b.leads_to(b.dma_run()),
{
    reveal(BusModel::dma_run);
    lemma_leads_to_itself(b);
    if let Some(page) = b.pending_oam_dma {
        let c = BusModel { pending_oam_dma: None, ..b };
        assert(b.leads_to(c)) by {
            reveal(BusModel::wf);
            reveal(BusModel::leads_to);
        }
        let base = (page * 256) as u16;
        lemma_leads_to_wf(b, c);
        lemma_copy_leads(c, base, 256);
        let d = c.copied(base, 256);
        lemma_leads_on(b, c, d);
        lemma_leads_to_wf(b, d);
        lemma_advance_leads(d, d.dma_cycles());
        lemma_leads_on(b, d, b.dma_run());
    }
}

/// Looking for an NMI leads on.
pub proof fn lemma_nmi_leads(b: BusModel)
    requires
        b.wf(),
    ensures
        b.leads_to(b.nmi_polled()),
{
    reveal(BusModel::wf);
    reveal(BusModel::leads_to);
    reveal(BusModel::nmi_polled);
}

proof fn lemma_cleared(a: BusModel)
    requires
        a.wf(),
    ensures
        a.stall_cleared().wf(),
        a.apu().core.dmc_stall <= 72,
{
    reveal(BusModel::wf);
}

/// Few cycles to give back make no difference.
proof fn lemma_uncleared(a: BusModel, b: BusModel)
    requires
        a.wf(),
        a.stall_cleared().leads_to(b.stall_cleared()),
        b.apu().core.dmc_stall <= 8,
    ensures
        a.leads_to(b),
        a.stall_cleared().passes_to(b.stall_cleared()) ==> a.passes_to(b),
{
    reveal(BusModel::wf);
    reveal(BusModel::leads_to);
    reveal(BusModel::passes_to);
}

fn copied_bytes(bytes: &Vec<u8>) -> (copy: Vec<u8>)
    ensures
        copy@ == bytes@,
{
    let mut copy: Vec<u8> = Vec::new();
    copy.extend_from_slice(bytes.as_slice());
    assert(copy@ =~= bytes@);
    copy
}

impl Bus {
    pub fn new(cartridge: Cartridge) -> (bus: Self)
        ensures
            bus@ == BusModel::powered_on(cartridge@),
            cartridge@.wf() ==> bus@.wf(),
            cartridge@.valid() ==> bus@.sound(),
    {
        reveal(BusModel::wf);
        let bus: Bus = Bus {
            ram: vec![0u8; RAM_SIZE],
            ppu: Ppu::default(),
            apu: Apu::default(),
            cartridge,
            joypads: [Joypad::default(), Joypad::default()],
            total_cycles: 0,
            open_bus: 0,
            pending_oam_dma: None,
            flat_ram: Vec::new(),
            access_log: Vec::new(),
        };
        assert(bus@.ram =~= BusModel::powered_on(cartridge@).ram);
        assert(bus@.flat_ram =~= Seq::<u8>::empty());
        assert(bus@.access_log =~= Seq::<(u16, u8, bool)>::empty());
        bus
    }

    /// A bus on which 64 KB of RAM answer every address, for trying single instructions.
    pub fn new_flat_ram_for_testing(cartridge: Cartridge) -> (bus: Self)
        ensures
            bus@ == (BusModel {
                flat_ram: Seq::new(0x1_0000, |i: int| 0u8),
                ..BusModel::powered_on(cartridge@)
            }),
            cartridge@.wf() ==> bus@.wf(),
    {
        reveal(BusModel::wf);
        let mut bus: Bus = Bus::new(cartridge);
        bus.flat_ram = vec![0u8; ADDRESS_SPACE];
        assert(bus.flat_ram@ =~= Seq::new(0x1_0000, |i: int| 0u8));
        bus
    }

    /// The memory of such a bus.
    pub fn flat_ram_mut(&mut self) -> (ram: &mut Vec<u8>)
        ensures
            ram@ == old(self)@.flat_ram,
            final(self)@ == (BusModel { flat_ram: final(ram)@, ..old(self)@ }),
    {
        &mut self.flat_ram
    }

    /// The accesses to such a memory since the last call.
    pub fn take_access_log(&mut self) -> (log: Vec<(u16, u8, bool)>)
        ensures
            log@ == old(self)@.access_log,
            final(self)@ == (BusModel { access_log: Seq::empty(), ..old(self)@ }),
            old(self)@.wf() ==> old(self)@.leads_to(final(self)@),
    {
        reveal(BusModel::wf);
        reveal(BusModel::leads_to);
        let mut log: Vec<(u16, u8, bool)> = Vec::new();
        log.append(&mut self.access_log);
        assert(log@ =~= old(self)@.access_log);
        assert(self.access_log@ =~= Seq::<(u16, u8, bool)>::empty());
        log
    }

    /// Saves the machine.
    pub fn save(&self, w: &mut Writer)
        ensures
            forall|rest: Seq<u8>| #[trigger] (final(w)@ + rest) == old(w)@ + self@.saved(rest),
    {
        reveal(BusModel::saved);
        w.block(self.ram.as_slice());
        self.ppu.save(w);
        self.apu.save(w);
        self.cartridge.save(w);
        self.joypads[0].save(w);
        self.joypads[1].save(w);
        w.quad(self.total_cycles);
        w.byte(self.open_bus);
        match self.pending_oam_dma {
            None => {
                w.flag(false);
            },
            Some(page) => {
                w.flag(true);
                w.byte(page);
            },
        }
    }

    /// Restores a machine, without its ROM and its output.
    pub fn restore(r: &mut Reader<'_>) -> (bus: Self)
        ensures
            (bus@, final(r)@) == BusModel::restored(old(r)@),
    {
        reveal(BusModel::restored);
        let ram: Vec<u8> = r.block();
        let ppu: Ppu = Ppu::restore(r);
        let apu: Apu = Apu::restore(r);
        let cartridge: Cartridge = Cartridge::restore(r);
        let pad0: Joypad = Joypad::restore(r);
        let pad1: Joypad = Joypad::restore(r);
        let total_cycles: u64 = r.quad();
        let open_bus: u8 = r.byte();
        let pending_oam_dma: Option<u8> = if r.presence() {
            Some(r.byte())
        } else {
            None
        };
        let bus: Bus = Bus {
            ram,
            ppu,
            apu,
            cartridge,
            joypads: [pad0, pad1],
            total_cycles,
            open_bus,
            pending_oam_dma,
            flat_ram: Vec::new(),
            access_log: Vec::new(),
        };
        assert(bus@.flat_ram =~= Seq::<u8>::empty());
        assert(bus@.access_log =~= Seq::<(u16, u8, bool)>::empty());
        bus
    }

    /// Takes over the ROM and the output settings of the machine that this one replaces.
    pub fn continue_from(&mut self, previous: &Bus)
        ensures
            final(self)@ == old(self)@.continued(previous@),
    {
        self.cartridge.prg_rom = copied_bytes(&previous.cartridge.prg_rom);
        self.cartridge.chr_rom = copied_bytes(&previous.cartridge.chr_rom);
        self.ppu.set_output_enabled(previous.apu.output_enabled());
        self.apu.adopt_output_settings(&previous.apu);
    }

    pub fn total_cycles(&self) -> (cycles: u64)
        ensures
            cycles == self@.total_cycles,
    {
        self.total_cycles
    }

    /// The scanline and the dot at which the PPU is.
    pub fn ppu_dot(&self) -> (dot: (u16, u16))
        ensures
            dot == (self@.ppu().scanline, self@.ppu().cycle),
    {
        (self.ppu.scanline, self.ppu.cycle)
    }

    pub fn ppu_ref(&self) -> (ppu: &Ppu)
        ensures
            ppu@ == self@.ppu(),
    {
        &self.ppu
    }

    pub fn apu_ref(&self) -> (apu: &Apu)
        ensures
            apu@ == self@.apu(),
    {
        &self.apu
    }

    pub fn cartridge_ref(&self) -> (cartridge: &Cartridge)
        ensures
            cartridge@ == self@.cart(),
    {
        &self.cartridge
    }

    pub fn ppu_mut(&mut self) -> (ppu: &mut Ppu)
        ensures
            ppu@ == old(self)@.ppu(),
            final(self)@ == old(self)@.with_ppu(final(ppu)@),
    {
        &mut self.ppu
    }

    pub fn apu_mut(&mut self) -> (apu: &mut Apu)
        ensures
            apu@ == old(self)@.apu(),
            final(self)@ == old(self)@.with_apu(final(apu)@),
    {
        &mut self.apu
    }

    /// Presses the buttons of the two controllers.
    pub fn hold_buttons(&mut self, p1: Buttons, p2: Buttons)
        ensures
            final(self)@ == old(self)@.holding(p1, p2),
            old(self)@.wf() ==> old(self)@.leads_to(final(self)@),
    {
        reveal(BusModel::wf);
        reveal(BusModel::leads_to);
        self.joypads[0].state = p1;
        self.joypads[1].state = p2;
    }

    /// Whether a save state with this machine can be restored.
    pub fn is_structurally_valid(&self) -> (yes: bool)
        ensures
            yes == self@.valid(),
    {
        let chr_ram_len: usize = if self.cartridge.info.chr_rom_banks == 0 {
            CHR_RAM_SIZE
        } else {
            0
        };
        self.ram.len() == RAM_SIZE && self.ppu.is_structurally_valid()
            && self.apu.is_structurally_valid() && self.cartridge.chr_ram.len() == chr_ram_len
            && self.cartridge.prg_ram.len() == PRG_RAM_SIZE && self.cartridge.mapper.id()
            == self.cartridge.info.mapper_id && self.cartridge.mapper.is_structurally_valid()
    }

    /// The level of the CPU's interrupt line.
    pub fn irq_line(&self) -> (yes: bool)
        ensures
            yes == self@.interrupts(),
    {
        reveal(BusModel::interrupts);
        self.apu.irq()
    }

    /// What is at an address, without reading it.
    pub fn peek(&self, addr: u16) -> (value: u8)
        requires
            self@.wf(),
        ensures
            value == self@.peeked(addr),
    {
        reveal(BusModel::wf);
        broadcast use lemma_mask_u16;

        if self.flat_ram.len() > 0 {
            self.flat_ram[addr as usize]
        } else if addr < 0x2000 {
            self.ram[(addr & 0x07FF) as usize]
        } else if addr < 0x4000 {
            self.ppu.peek_register(mirror_ppu_register(addr))
        } else if addr < 0x4018 {
            self.peek_apu_io_register(addr)
        } else if addr < 0x6000 {
            self.open_bus
        } else if addr < 0x8000 {
            if self.cartridge.mapper.prg_ram_enabled() {
                self.cartridge.prg_ram[(addr - 0x6000) as usize]
            } else {
                self.open_bus
            }
        } else {
            self.cartridge.read_prg(addr)
        }
    }

    fn peek_apu_io_register(&self, addr: u16) -> (value: u8)
        requires
            0x4000 <= addr < 0x4018,
        ensures
            !self@.flat() ==> value == self@.peeked(addr),
    {
        if addr == 0x4015 {
            self.apu.peek_status() | (self.open_bus & 0x20)
        } else if addr == 0x4016 {
            (self.open_bus & 0xE0) | self.joypads[0].peek()
        } else if addr == 0x4017 {
            (self.open_bus & 0xE0) | self.joypads[1].peek()
        } else {
            self.open_bus
        }
    }

    /// The CPU reads an address.
    pub fn read(&mut self, addr: u16) -> (value: u8)
        requires
            old(self)@.wf(),
        ensures
            value == old(self)@.value_read(addr),
            final(self)@ == old(self)@.after_read(addr),
            old(self)@.leads_to(final(self)@),
    {
        reveal(BusModel::wf);
        proof {
            lemma_read_leads(self@, addr);
        }
        reveal(BusModel::value_read);
        reveal(BusModel::after_read);
        if self.flat_ram.len() > 0 {
            let value: u8 = self.flat_ram[addr as usize];
            self.access_log.push((addr, value, false));
            return value;
        }
        if addr == 0x4015 {
            return self.read_apu_status();
        }
        let value: u8;
        if 0x2000 <= addr && addr < 0x4000 {
            value = self.ppu.read_register(mirror_ppu_register(addr), &self.cartridge);
        } else if addr == 0x4016 {
            value = (self.open_bus & 0xE0) | self.joypads[0].read();
        } else if addr == 0x4017 {
            value = (self.open_bus & 0xE0) | self.joypads[1].read();
        } else {
            value = self.peek(addr);
        }
        self.open_bus = value;
        value
    }

    fn read_apu_status(&mut self) -> (value: u8)
        requires
            old(self)@.wf(),
            !old(self)@.flat(),
        ensures
            value == old(self)@.value_read(0x4015),
            final(self)@ == old(self)@.after_read(0x4015),
            old(self)@.leads_to(final(self)@),
    {
        reveal(BusModel::wf);
        proof {
            lemma_read_leads(self@, 0x4015);
        }
        reveal(BusModel::value_read);
        reveal(BusModel::after_read);
        self.apu.sync(&self.cartridge);
        self.apu.read_status() | (self.open_bus & 0x20)
    }

    /// The CPU writes an address.
    pub fn write(&mut self, addr: u16, value: u8)
        requires
            old(self)@.wf(),
        ensures
            final(self)@ == old(self)@.written(addr, value, false),
            old(self)@.leads_to(final(self)@),
    {
        self.write_mapped(addr, value, false);
    }

    /// The two writes of a read-modify-write instruction.
    pub fn write_rmw(&mut self, addr: u16, before: u8, after: u8)
        requires
            old(self)@.wf(),
        ensures
            final(self)@ == old(self)@.rewritten(addr, before, after),
            old(self)@.leads_to(final(self)@),
    {
        self.write_mapped(addr, before, false);
        let ghost between = self@;
        proof {
            lemma_leads_to_wf(old(self)@, between);
        }
        self.write_mapped(addr, after, true);
        proof {
            lemma_leads_on(old(self)@, between, self@);
        }
    }

    fn write_mapped(&mut self, addr: u16, value: u8, consecutive: bool)
        requires
            old(self)@.wf(),
        ensures
            final(self)@ == old(self)@.written(addr, value, consecutive),
            old(self)@.leads_to(final(self)@),
    {
        reveal(BusModel::wf);
        broadcast use lemma_mask_u16;

        proof {
            lemma_write_leads(self@, addr, value, consecutive);
        }
        reveal(BusModel::written);
        if self.flat_ram.len() > 0 {
            self.flat_ram.set(addr as usize, value);
            self.access_log.push((addr, value, true));
            return ;
        }
        if 0x4000 <= addr && addr < 0x4018 {
            self.write_apu_io_register(addr, value);
            return ;
        }
        self.open_bus = value;
        if addr < 0x2000 {
            self.ram.set((addr & 0x07FF) as usize, value);
        } else if addr < 0x4000 {
            self.ppu.write_register(mirror_ppu_register(addr), value, &mut self.cartridge);
        } else if addr < 0x6000 {
        } else if addr < 0x8000 {
            if self.cartridge.mapper.prg_ram_enabled() {
                self.cartridge.prg_ram.set((addr - 0x6000) as usize, value);
            }
        } else {
            self.cartridge.write_prg(addr, value, consecutive);
        }
    }

    fn write_apu_io_register(&mut self, addr: u16, value: u8)
        requires
            old(self)@.wf(),
            !old(self)@.flat(),
            0x4000 <= addr < 0x4018,
        ensures
            forall|consecutive: bool|
                final(self)@ == #[trigger] old(self)@.written(addr, value, consecutive),
            old(self)@.leads_to(final(self)@),
    {
        reveal(BusModel::wf);
        proof {
            lemma_write_leads(self@, addr, value, false);
        }
        reveal(BusModel::written);
        self.open_bus = value;
        if addr == 0x4014 {
            self.pending_oam_dma = Some(value);
        } else if addr == 0x4016 {
            let strobe: bool = value & 1 != 0;
            self.joypads[0].write_strobe(strobe);
            self.joypads[1].write_strobe(strobe);
        } else {
            self.apu.sync(&self.cartridge);
            self.apu.write_register(addr, value);
        }
    }

    /// The CPU spent `cycles` cycles. The PPU runs three dots in each.
    pub fn tick(&mut self, cycles: u8)
        requires
            old(self)@.wf(),
        ensures
            final(self)@ == old(self)@.advanced(cycles as int),
            old(self)@.leads_to(final(self)@),
            cycles > 0 ==> old(self)@.passes_to(final(self)@),
    {
        self.advance(cycles as u32);
    }

    fn advance(&mut self, cycles: u32)
        requires
            old(self)@.wf(),
            cycles <= 514,
        ensures
            final(self)@ == old(self)@.advanced(cycles as int),
            old(self)@.leads_to(final(self)@),
            cycles > 0 ==> old(self)@.passes_to(final(self)@),
    {
        reveal(BusModel::advanced);
        proof {
            lemma_advance_leads(self@, cycles as int);
            lemma_cleared(self@);
            lemma_run_leads(self@, cycles as int);
        }
        self.run(cycles);
        let ghost b = self@;
        let stall: u32 = self.apu.take_dmc_stall();
        assert(self@ == b.stall_cleared());
        if stall > 0 {
            proof {
                lemma_leads_to_wf(old(self)@.stall_cleared(), b.stall_cleared());
                assert(self@.stall_cleared() == self@);
            }
            self.run(stall);
        } else {
            assert(self@ == b);
        }
    }

    /// Runs the other units. What sample fetches take meanwhile is left to be given back.
    fn run(&mut self, cycles: u32)
        requires
            old(self)@.stall_cleared().wf(),
            cycles <= 514,
        ensures
            final(self)@ == old(self)@.ran(cycles as int),
    {
        reveal(BusModel::wf);
        self.total_cycles = self.total_cycles.wrapping_add(cycles as u64);
        self.ppu.step_dots(cycles * 3, &self.cartridge);
        self.apu.step(cycles, &self.cartridge);
    }

    /// Between two instructions: is there an NMI to serve? It is then served.
    pub fn take_nmi(&mut self) -> (taken: bool)
        requires
            old(self)@.wf(),
        ensures
            taken == old(self)@.nmi_ready(),
            final(self)@ == old(self)@.nmi_polled(),
            old(self)@.leads_to(final(self)@),
    {
        proof {
            lemma_nmi_leads(self@);
        }
        reveal(BusModel::nmi_ready);
        reveal(BusModel::nmi_polled);
        let taken: bool = self.ppu.take_nmi();
        assert(self@ == old(self)@.nmi_polled());
        taken
    }

    /// Runs the OAM DMA that waits, if one does, and returns how many cycles it held the CPU.
    pub fn run_pending_oam_dma(&mut self) -> (stall: u32)
        requires
            old(self)@.wf(),
        ensures
            final(self)@ == old(self)@.dma_run(),
            old(self)@.leads_to(final(self)@),
            stall == match old(self)@.pending_oam_dma {
                None => 0,
                Some(page) => (BusModel { pending_oam_dma: None, ..old(self)@ }).copied(
                    (page * 256) as u16,
                    256,
                ).dma_cycles(),
            },
    {
        reveal(BusModel::dma_run);
        proof {
            lemma_dma_leads(self@);
        }
        match self.pending_oam_dma {
            None => 0,
            Some(page) => {
                self.pending_oam_dma = None;
                let base: u16 = page as u16 * 256;
                let start: u8 = self.ppu.oam_addr;
                let ghost first = self@;
                assert(first.wf()) by {
                    reveal(BusModel::wf);
                }
                let mut i: u16 = 0;
                while i < 256
                    invariant
                        i <= 256,
                        first.wf(),
                        start == first.ppu().oam_addr,
                        self@ == first.copied(base, i as int),
                    decreases 256 - i,
                {
                    proof {
                        lemma_copy_leads(first, base, i as int);
                        lemma_leads_to_wf(first, self@);
                    }
                    let ghost before = self@;
                    let byte: u8 = self.read(base.wrapping_add(i));
                    proof {
                        lemma_leads_to_wf(before, self@);
                    }
                    self.set_sprite_byte(start.wrapping_add(i as u8), byte);
                    i = i + 1;
                }
                let stall: u32 = 513 + (self.total_cycles % 2) as u32;
                proof {
                    lemma_copy_leads(first, base, 256);
                    lemma_leads_to_wf(first, self@);
                }
                self.advance(stall);
                stall
            },
        }
    }

    fn set_sprite_byte(&mut self, position: u8, value: u8)
        requires
            old(self)@.wf(),
        ensures
            final(self)@ == old(self)@.sprite_byte_set(position, value),
    {
        reveal(BusModel::wf);
        self.ppu.oam.set(position as usize, value);
    }

    pub fn fingerprint(&self, h: &mut Fp)
        ensures
            forall|rest: Seq<u8>| #[trigger] (final(h)@ + rest) == old(h)@ + self@.stamp(rest),
    {
        reveal(BusModel::stamp);
        reveal(BusModel::line_stamp);
        h.bytes(self.ram.as_slice());
        self.ppu.fingerprint(h);
        self.apu.fingerprint(h);
        self.cartridge.fingerprint(h);
        self.joypads[0].fingerprint(h);
        self.joypads[1].fingerprint(h);
        h.u64(self.total_cycles);
        h.u8(self.open_bus);
        match self.pending_oam_dma {
            None => {
                h.bool(false);
            },
            Some(page) => {
                h.bool(true);
                h.u8(page);
            },
        }
    }
}

} // verus!

//! The CPU, a 6502 without decimal mode.
//!
//! # Timing
//!
//! [`Cpu::step`] runs one instruction from beginning to end. What an instruction does to memory
//! it does near its last cycle, so the other units first catch up on all cycles but the last;
//! then the instruction works, and then they catch up on the last cycle and on those that a taken
//! branch adds. Between two instructions the CPU looks for interrupts.

use vstd::prelude::*;

use crate::bus::{group_leads_to, Bus, BusModel};
use crate::fingerprint::{put_bool, put_u16, put_u8, Fp};

pub mod execute;
pub mod flags;
pub mod opcodes;
pub mod trace;

pub use flags::StatusFlags;
pub use opcodes::{opcode_info, AddrMode, Mnemonic, OpcodeInfo, OPCODES};

use opcodes::{decoded, law_opcode_sizes};

verus! {

broadcast use group_leads_to;

/// Where the stack begins.
pub const STACK_BASE: u16 = 0x0100;

/// Where the address to start at after a reset is found.
pub const RESET_VECTOR: u16 = 0xFFFC;

/// Where the address of the handler of an NMI is found.
pub const NMI_VECTOR: u16 = 0xFFFA;

/// Where the address of the handler of an IRQ or BRK is found.
pub const IRQ_VECTOR: u16 = 0xFFFE;

/// The cycles of one step of a CPU that is stuck.
pub const JAM_CYCLES: u8 = 2;

#[derive(Debug, Clone)]
pub struct Cpu {
    pub a: u8,
    pub x: u8,
    pub y: u8,
    pub sp: u8,
    pub pc: u16,
    pub status: StatusFlags,
    /// A JAM instruction ran: nothing runs any more.
    pub jammed: bool,
    /// The level of the interrupt line before the last cycle of the last instruction.
    pub irq_sample: bool,
    /// Whether that sample is masked.
    pub irq_masked: bool,
    pub bus: Bus,
}

/// The CPU and what is attached to it, as a value.
pub struct CpuModel {
    pub a: u8,
    pub x: u8,
    pub y: u8,
    pub sp: u8,
    pub pc: u16,
    pub status: StatusFlags,
    pub jammed: bool,
    pub irq_sample: bool,
    pub irq_masked: bool,
    pub bus: BusModel,
}

impl View for Cpu {
    type V = CpuModel;

    open spec fn view(&self) -> CpuModel {
        CpuModel {
            a: self.a,
            x: self.x,
            y: self.y,
            sp: self.sp,
            pc: self.pc,
            status: self.status,
            jammed: self.jammed,
            irq_sample: self.irq_sample,
            irq_masked: self.irq_masked,
            bus: self.bus@,
        }
    }
}

/// The address with these two bytes.
pub open spec fn word(low: u8, high: u8) -> u16 {
    (high * 256 + low) as u16
}

fn word_of(low: u8, high: u8) -> (w: u16)
    ensures
        w == word(low, high),
{
    high as u16 * 256 + low as u16
}

/// The high byte of an address.
pub open spec fn page(addr: u16) -> int {
    addr as int / 256
}

/// Whether two addresses lie in different pages.
pub fn page_crossed(a: u16, b: u16) -> (yes: bool)
    ensures
        yes == (page(a) != page(b)),
{
    a / 256 != b / 256
}

/// The address that the CPU forms first when it adds an index: the page of the base, the low byte
/// of the sum.
pub open spec fn unpaged(base: u16, effective: u16) -> u16 {
    (page(base) * 256 + effective % 256) as u16
}

pub fn uncorrected(base: u16, effective: u16) -> (addr: u16)
    ensures
        addr == unpaged(base, effective),
{
    base / 256 * 256 + effective % 256
}

/// `base` plus the distance that a byte means, as a number from -128 to 127.
pub open spec fn displaced(base: u16, offset: u8) -> u16 {
    base.wrapping_add(if offset < 0x80 { offset as u16 } else { (0xFF00 + offset) as u16 })
}

fn displace(base: u16, offset: u8) -> (addr: u16)
    ensures
        addr == displaced(base, offset),
{
    base.wrapping_add(if offset < 0x80 { offset as u16 } else { 0xFF00 + offset as u16 })
}

/// Where the high byte of a jump's target is fetched: the CPU does not leave the page.
pub open spec fn next_in_page(ptr: u16) -> u16 {
    if ptr % 256 == 255 { (ptr - 255) as u16 } else { (ptr + 1) as u16 }
}

fn next_in_page_of(ptr: u16) -> (addr: u16)
    ensures
        addr == next_in_page(ptr),
{
    if ptr % 256 == 255 {
        ptr - 255
    } else {
        ptr + 1
    }
}

/// An operand: its address, whether adding the index left the page, and the address that was
/// formed before the page was corrected.
#[derive(Debug, Clone, Copy, PartialEq, Eq)]
pub struct Operand {
    pub addr: u16,
    pub crossed: bool,
    pub uncorrected: Option<u16>,
}

impl Operand {
    /// An operand found without adding an index to an address.
    pub open spec fn plain(addr: u16) -> Operand {
        Operand { addr, crossed: false, uncorrected: None }
    }

    /// The operand `index` bytes behind `base`.
    pub open spec fn indexed(base: u16, index: u8) -> Operand {
        let addr = base.wrapping_add(index as u16);
        Operand {
            addr,
            crossed: page(base) != page(addr),
            uncorrected: Some(unpaged(base, addr)),
        }
    }

    /// The address that is read to no purpose: the uncorrected one, unless it is right and the
    /// instruction only reads.
    pub open spec fn dummy(self, info: OpcodeInfo) -> Option<u16> {
        if self.crossed || !info.page_cross_penalty { self.uncorrected } else { None }
    }

    /// The cycles of an instruction with this operand, branches left aside.
    pub open spec fn cycles(self, info: OpcodeInfo) -> u8 {
        (info.cycles + (if info.page_cross_penalty && self.crossed { 1int } else { 0 })) as u8
    }
}

fn plain_operand(addr: u16) -> (operand: Operand)
    ensures
        operand == Operand::plain(addr),
{
    Operand { addr, crossed: false, uncorrected: None }
}

fn indexed_operand(base: u16, index: u8) -> (operand: Operand)
    ensures
        operand == Operand::indexed(base, index),
{
    let addr: u16 = base.wrapping_add(index as u16);
    Operand {
        addr,
        crossed: page_crossed(base, addr),
        uncorrected: Some(uncorrected(base, addr)),
    }
}

impl CpuModel {
    /// A CPU at power-on.
    pub open spec fn powered_on(bus: BusModel) -> CpuModel {
        CpuModel {
            a: 0,
            x: 0,
            y: 0,
            sp: 0xFD,
            pc: 0,
            status: StatusFlags { raw: 0x24 },
            jammed: false,
            irq_sample: false,
            irq_masked: true,
            bus,
        }
    }

    /// The CPU with another bus.
    pub open spec fn on(self, bus: BusModel) -> CpuModel {
        CpuModel { bus, ..self }
    }

    /// A read: the CPU afterwards, and the value.
    pub open spec fn reading(self, addr: u16) -> (CpuModel, u8) {
        (self.on(self.bus.after_read(addr)), self.bus.value_read(addr))
    }

    /// A read of two bytes.
    pub open spec fn reading_word(self, low: u16, high: u16) -> (CpuModel, u16) {
        let (c, lo) = self.reading(low);
        let (d, hi) = c.reading(high);
        (d, word(lo, hi))
    }

    /// The byte at the program counter.
    pub open spec fn fetching(self) -> (CpuModel, u8) {
        let (c, value) = self.reading(self.pc);
        (CpuModel { pc: self.pc.wrapping_add(1), ..c }, value)
    }

    /// The two bytes at the program counter.
    pub open spec fn fetching_word(self) -> (CpuModel, u16) {
        let (c, lo) = self.fetching();
        let (d, hi) = c.fetching();
        (d, word(lo, hi))
    }

    /// The address at two bytes of the zero page, which does not end at its last byte.
    pub open spec fn reading_pointer(self, ptr: u8) -> (CpuModel, u16) {
        self.reading_word(ptr as u16, ptr.wrapping_add(1) as u16)
    }

    pub open spec fn pushed(self, value: u8) -> CpuModel {
        CpuModel {
            sp: self.sp.wrapping_sub(1),
            bus: self.bus.written((0x0100 + self.sp) as u16, value, false),
            ..self
        }
    }

    pub open spec fn pushed_word(self, value: u16) -> CpuModel {
        self.pushed((value / 256) as u8).pushed((value % 256) as u8)
    }

    pub open spec fn popping(self) -> (CpuModel, u8) {
        let sp = self.sp.wrapping_add(1);
        CpuModel { sp, ..self }.reading((0x0100 + sp) as u16)
    }

    pub open spec fn popping_word(self) -> (CpuModel, u16) {
        let (c, lo) = self.popping();
        let (d, hi) = c.popping();
        (d, word(lo, hi))
    }

    /// Finds the operand of an instruction whose opcode has been fetched.
    #[verifier::opaque]
    pub open spec fn locating(self, mode: AddrMode) -> (CpuModel, Operand) {
        match mode {
            AddrMode::Implied | AddrMode::Accumulator => (self, Operand::plain(0)),
            AddrMode::Immediate => (
                CpuModel { pc: self.pc.wrapping_add(1), ..self },
                Operand::plain(self.pc),
            ),
            AddrMode::ZeroPage => {
                let (c, base) = self.fetching();
                (c, Operand::plain(base as u16))
            },
            AddrMode::ZeroPageX => {
                let (c, base) = self.fetching();
                (c, Operand::plain(base.wrapping_add(self.x) as u16))
            },
            AddrMode::ZeroPageY => {
                let (c, base) = self.fetching();
                (c, Operand::plain(base.wrapping_add(self.y) as u16))
            },
            AddrMode::Absolute => {
                let (c, addr) = self.fetching_word();
                (c, Operand::plain(addr))
            },
            AddrMode::AbsoluteX => {
                let (c, base) = self.fetching_word();
                (c, Operand::indexed(base, self.x))
            },
            AddrMode::AbsoluteY => {
                let (c, base) = self.fetching_word();
                (c, Operand::indexed(base, self.y))
            },
            AddrMode::Indirect => {
                let (c, ptr) = self.fetching_word();
                let (d, addr) = c.reading_word(ptr, next_in_page(ptr));
                (d, Operand::plain(addr))
            },
            AddrMode::IndirectX => {
                let (c, base) = self.fetching();
                let (d, addr) = c.reading_pointer(base.wrapping_add(self.x));
                (d, Operand::plain(addr))
            },
            AddrMode::IndirectY => {
                let (c, base) = self.fetching();
                let (d, ptr) = c.reading_pointer(base);
                (d, Operand::indexed(ptr, self.y))
            },
            AddrMode::Relative => {
                let (c, offset) = self.fetching();
                (c, Operand::plain(displaced(c.pc, offset)))
            },
        }
    }

    /// The CPU after `n` cycles of the other units.
    pub open spec fn ticked(self, n: int) -> CpuModel {
        self.on(self.bus.advanced(n))
    }

    /// The other units catch up on `lead` cycles. A read to no purpose happens a cycle before
    /// their end.
    #[verifier::opaque]
    pub open spec fn caught_up(self, lead: int, dummy: Option<u16>) -> CpuModel {
        match dummy {
            None => self.ticked(lead),
            Some(addr) => self.ticked(lead - 1).reading(addr).0.ticked(1),
        }
    }

    /// The CPU enters the handler of an interrupt, which takes seven cycles.
    #[verifier::opaque]
    pub open spec fn interrupted(self, vector: u16) -> CpuModel {
        let flags = self.status.with(0x10, false).with(0x20, true);
        let (c, target) = self.pushed_word(self.pc).pushed(flags.raw).reading_word(
            vector,
            vector.wrapping_add(1),
        );
        CpuModel { pc: target, status: self.status.with(0x04, true), ..c }.ticked(7)
    }

    /// An interrupt served between two instructions: the handler's first instruction runs next.
    pub open spec fn served(self, vector: u16) -> CpuModel {
        CpuModel { irq_sample: false, irq_masked: true, ..self.interrupted(vector) }
    }

    /// A reset: the stack pointer and the flags are set, and the CPU starts at the address in the
    /// reset vector. `a`, `x` and `y` stay.
    pub open spec fn was_reset(self) -> CpuModel {
        let (c, target) = CpuModel {
            sp: 0xFD,
            status: StatusFlags { raw: 0x24 },
            jammed: false,
            irq_sample: false,
            irq_masked: true,
            ..self
        }.reading_word(0xFFFC, 0xFFFD);
        CpuModel { pc: target, ..c }.ticked(7)
    }

    /// CLI, SEI and PLP change the interrupt flag too late for the sample of their own end.
    pub open spec fn masks_late(mnemonic: Mnemonic) -> bool {
        mnemonic == Mnemonic::Cli || mnemonic == Mnemonic::Sei || mnemonic == Mnemonic::Plp
    }

    /// One instruction: the CPU afterwards, and the cycles it took.
    #[verifier::opaque]
    pub open spec fn running(self) -> (CpuModel, u8) {
        let (fetched, opcode) = self.fetching();
        let info = decoded(opcode);
        let (located, operand) = fetched.locating(info.mode);
        let cycles = operand.cycles(info);
        let ready = located.caught_up(cycles - 1, operand.dummy(info));
        let sampled = CpuModel { irq_sample: ready.bus.interrupts(), ..ready };
        let (done, extra) = sampled.executing(info.mnemonic, info.mode, operand.addr);
        let masked = if CpuModel::masks_late(info.mnemonic) {
            ready.status.has(0x04)
        } else {
            done.status.has(0x04)
        };
        let ticked = CpuModel { irq_masked: masked, ..done }.ticked(1 + extra);
        (ticked.on(ticked.bus.dma_run()), (cycles + extra) as u8)
    }

    /// The CPU after it looked for an NMI.
    pub open spec fn nmi_polled(self) -> CpuModel {
        self.on(self.bus.nmi_polled())
    }

    /// One step: an interrupt, an instruction, or the time that a stuck CPU lets pass.
    #[verifier::opaque]
    pub open spec fn stepping(self) -> (CpuModel, u8) {
        if self.jammed {
            (self.ticked(2), 2)
        } else if self.bus.nmi_ready() {
            (self.nmi_polled().served(0xFFFA), 7)
        } else if self.irq_sample && !self.irq_masked {
            (self.nmi_polled().served(0xFFFE), 7)
        } else {
            self.nmi_polled().running()
        }
    }

    /// The CPU after `n` steps.
    pub open spec fn after(self, n: nat) -> CpuModel
        decreases n,
    {
        if n == 0 { self } else { self.after((n - 1) as nat).stepping().0 }
    }

    #[verifier::opaque]
    pub open spec fn stamp(self, rest: Seq<u8>) -> Seq<u8> {
        put_u8(
            self.a,
            put_u8(
                self.x,
                put_u8(
                    self.y,
                    put_u8(
                        self.sp,
                        put_u16(
                            self.pc,
                            put_u8(
                                self.status.raw,
                                put_bool(
                                    self.jammed,
                                    put_bool(
                                        self.irq_sample,
                                        put_bool(self.irq_masked, self.bus.stamp(rest)),
                                    ),
                                ),
                            ),
                        ),
                    ),
                ),
            ),
        )
    }
}

impl Cpu {
    pub fn new(bus: Bus) -> (cpu: Self)
        ensures
            cpu@ == CpuModel::powered_on(bus@),
    {
        Cpu {
            a: 0,
            x: 0,
            y: 0,
            sp: 0xFD,
            pc: 0,
            status: StatusFlags::default(),
            jammed: false,
            irq_sample: false,
            irq_masked: true,
            bus,
        }
    }

    pub fn bus(&self) -> (bus: &Bus)
        ensures
            bus@ == self@.bus,
            *bus == self.bus,
    {
        &self.bus
    }

    pub fn bus_mut(&mut self) -> (bus: &mut Bus)
        ensures
            *bus == old(self).bus,
            *final(self) == (Cpu { bus: *final(bus), ..*old(self) }),
    {
        &mut self.bus
    }

    pub fn fingerprint(&self, h: &mut Fp)
        ensures
            forall|rest: Seq<u8>| #[trigger] (final(h)@ + rest) == old(h)@ + self@.stamp(rest),
    {
        reveal(CpuModel::stamp);
        h.u8(self.a);
        h.u8(self.x);
        h.u8(self.y);
        h.u8(self.sp);
        h.u16(self.pc);
        h.u8(self.status.bits());
        h.bool(self.jammed);
        h.bool(self.irq_sample);
        h.bool(self.irq_masked);
        self.bus.fingerprint(h);
    }

    fn read(&mut self, addr: u16) -> (value: u8)
        requires
            old(self)@.bus.wf(),
        ensures
            (final(self)@, value) == old(self)@.reading(addr),
            old(self)@.bus.leads_to(final(self)@.bus),
    {
        self.bus.read(addr)
    }

    fn read_u16(&mut self, low: u16, high: u16) -> (value: u16)
        requires
            old(self)@.bus.wf(),
        ensures
            (final(self)@, value) == old(self)@.reading_word(low, high),
            old(self)@.bus.leads_to(final(self)@.bus),
    {
        let lo: u8 = self.read(low);
        let hi: u8 = self.read(high);
        word_of(lo, hi)
    }

    fn fetch(&mut self) -> (value: u8)
        requires
            old(self)@.bus.wf(),
        ensures
            (final(self)@, value) == old(self)@.fetching(),
            old(self)@.bus.leads_to(final(self)@.bus),
    {
        let value: u8 = self.bus.read(self.pc);
        self.pc = self.pc.wrapping_add(1);
        value
    }

    fn read_u16_operand(&mut self) -> (value: u16)
        requires
            old(self)@.bus.wf(),
        ensures
            (final(self)@, value) == old(self)@.fetching_word(),
            old(self)@.bus.leads_to(final(self)@.bus),
    {
        let lo: u8 = self.fetch();
        let hi: u8 = self.fetch();
        word_of(lo, hi)
    }

    fn read_u16_zp(&mut self, ptr: u8) -> (value: u16)
        requires
            old(self)@.bus.wf(),
        ensures
            (final(self)@, value) == old(self)@.reading_pointer(ptr),
            old(self)@.bus.leads_to(final(self)@.bus),
    {
        self.read_u16(ptr as u16, ptr.wrapping_add(1) as u16)
    }

    fn read_u16_bugged(&mut self, ptr: u16) -> (value: u16)
        requires
            old(self)@.bus.wf(),
        ensures
            (final(self)@, value) == old(self)@.reading_word(ptr, next_in_page(ptr)),
            old(self)@.bus.leads_to(final(self)@.bus),
    {
        self.read_u16(ptr, next_in_page_of(ptr))
    }

    fn push_u8(&mut self, value: u8)
        requires
            old(self)@.bus.wf(),
        ensures
            final(self)@ == old(self)@.pushed(value),
            old(self)@.bus.leads_to(final(self)@.bus),
    {
        self.bus.write(STACK_BASE + self.sp as u16, value);
        self.sp = self.sp.wrapping_sub(1);
    }

    fn push_u16(&mut self, value: u16)
        requires
            old(self)@.bus.wf(),
        ensures
            final(self)@ == old(self)@.pushed_word(value),
            old(self)@.bus.leads_to(final(self)@.bus),
    {
        self.push_u8((value / 256) as u8);
        self.push_u8((value % 256) as u8);
    }

    fn pop_u8(&mut self) -> (value: u8)
        requires
            old(self)@.bus.wf(),
        ensures
            (final(self)@, value) == old(self)@.popping(),
            old(self)@.bus.leads_to(final(self)@.bus),
    {
        self.sp = self.sp.wrapping_add(1);
        self.bus.read(STACK_BASE + self.sp as u16)
    }

    fn pop_u16(&mut self) -> (value: u16)
        requires
            old(self)@.bus.wf(),
        ensures
            (final(self)@, value) == old(self)@.popping_word(),
            old(self)@.bus.leads_to(final(self)@.bus),
    {
        let lo: u8 = self.pop_u8();
        let hi: u8 = self.pop_u8();
        word_of(lo, hi)
    }

    fn tick(&mut self, cycles: u8)
        requires
            old(self)@.bus.wf(),
        ensures
            final(self)@ == old(self)@.ticked(cycles as int),
            old(self)@.bus.leads_to(final(self)@.bus),
            cycles > 0 ==> old(self)@.bus.passes_to(final(self)@.bus),
    {
        self.bus.tick(cycles);
    }

    /// The reset signal, or power-on.
    pub fn reset(&mut self)
        requires
            old(self)@.bus.wf(),
        ensures
            final(self)@ == old(self)@.was_reset(),
            old(self)@.bus.leads_to(final(self)@.bus),
    {
        self.sp = 0xFD;
        self.status = StatusFlags::default();
        self.jammed = false;
        self.irq_sample = false;
        self.irq_masked = true;
        self.pc = self.read_u16(RESET_VECTOR, RESET_VECTOR + 1);
        self.tick(7);
    }

    /// Serves an NMI.
    pub fn nmi(&mut self)
        requires
            old(self)@.bus.wf(),
        ensures
            final(self)@ == old(self)@.interrupted(0xFFFA),
            old(self)@.bus.leads_to(final(self)@.bus),
            old(self)@.bus.passes_to(final(self)@.bus),
    {
        self.interrupt(NMI_VECTOR);
    }

    /// Serves an IRQ. Whether one is to be served, [`Cpu::step`] decides.
    pub fn irq(&mut self)
        requires
            old(self)@.bus.wf(),
        ensures
            final(self)@ == old(self)@.interrupted(0xFFFE),
            old(self)@.bus.leads_to(final(self)@.bus),
            old(self)@.bus.passes_to(final(self)@.bus),
    {
        self.interrupt(IRQ_VECTOR);
    }

    fn interrupt(&mut self, vector: u16)
        requires
            old(self)@.bus.wf(),
        ensures
            final(self)@ == old(self)@.interrupted(vector),
            old(self)@.bus.leads_to(final(self)@.bus),
            old(self)@.bus.passes_to(final(self)@.bus),
    {
        reveal(CpuModel::interrupted);
        self.push_u16(self.pc);
        let mut flags: StatusFlags = self.status;
        flags.remove(StatusFlags::BREAK);
        flags.insert(StatusFlags::UNUSED);
        self.push_u8(flags.bits());
        self.status.insert(StatusFlags::INTERRUPT);
        self.pc = self.read_u16(vector, vector.wrapping_add(1));
        self.tick(7);
    }

    fn resolve_operand(&mut self, mode: AddrMode) -> (operand: Operand)
        requires
            old(self)@.bus.wf(),
        ensures
            (final(self)@, operand) == old(self)@.locating(mode),
            old(self)@.bus.leads_to(final(self)@.bus),
    {
        reveal(CpuModel::locating);
        match mode {
            AddrMode::Implied | AddrMode::Accumulator => plain_operand(0),
            AddrMode::Immediate => {
                let addr: u16 = self.pc;
                self.pc = self.pc.wrapping_add(1);
                plain_operand(addr)
            },
            AddrMode::ZeroPage => {
                let base: u8 = self.fetch();
                plain_operand(base as u16)
            },
            AddrMode::ZeroPageX => {
                let base: u8 = self.fetch();
                plain_operand(base.wrapping_add(self.x) as u16)
            },
            AddrMode::ZeroPageY => {
                let base: u8 = self.fetch();
                plain_operand(base.wrapping_add(self.y) as u16)
            },
            AddrMode::Absolute => {
                let addr: u16 = self.read_u16_operand();
                plain_operand(addr)
            },
            AddrMode::AbsoluteX => {
                let base: u16 = self.read_u16_operand();
                indexed_operand(base, self.x)
            },
            AddrMode::AbsoluteY => {
                let base: u16 = self.read_u16_operand();
                indexed_operand(base, self.y)
            },
            AddrMode::Indirect => {
                let ptr: u16 = self.read_u16_operand();
                let addr: u16 = self.read_u16_bugged(ptr);
                plain_operand(addr)
            },
            AddrMode::IndirectX => {
                let base: u8 = self.fetch();
                let addr: u16 = self.read_u16_zp(base.wrapping_add(self.x));
                plain_operand(addr)
            },
            AddrMode::IndirectY => {
                let base: u8 = self.fetch();
                let ptr: u16 = self.read_u16_zp(base);
                indexed_operand(ptr, self.y)
            },
            AddrMode::Relative => {
                let offset: u8 = self.fetch();
                plain_operand(displace(self.pc, offset))
            },
        }
    }

    fn catch_up(&mut self, lead: u8, dummy: Option<u16>)
        requires
            old(self)@.bus.wf(),
            lead >= 1,
        ensures
            final(self)@ == old(self)@.caught_up(lead as int, dummy),
            old(self)@.bus.leads_to(final(self)@.bus),
            old(self)@.bus.passes_to(final(self)@.bus),
    {
        reveal(CpuModel::caught_up);
        match dummy {
            None => self.tick(lead),
            Some(addr) => {
                self.tick(lead - 1);
                let _: u8 = self.read(addr);
                self.tick(1);
            },
        }
    }

    /// Runs one instruction, or serves an interrupt, and returns the cycles that it took. An OAM
    /// DMA that the instruction asked for runs after it, and is not counted.
    pub fn step(&mut self) -> (cycles: u8)
        requires
            old(self)@.bus.wf(),
        ensures
            (final(self)@, cycles) == old(self)@.stepping(),
            old(self)@.bus.leads_to(final(self)@.bus),
            old(self)@.bus.passes_to(final(self)@.bus),
    {
        reveal(CpuModel::stepping);
        if self.jammed {
            self.tick(JAM_CYCLES);
            return JAM_CYCLES;
        }
        if self.bus.take_nmi() {
            self.nmi();
            self.irq_sample = false;
            self.irq_masked = true;
            return 7;
        }
        if self.irq_sample && !self.irq_masked {
            self.irq();
            self.irq_sample = false;
            self.irq_masked = true;
            return 7;
        }
        self.run_instruction()
    }

    fn run_instruction(&mut self) -> (cycles: u8)
        requires
            old(self)@.bus.wf(),
        ensures
            (final(self)@, cycles) == old(self)@.running(),
            old(self)@.bus.leads_to(final(self)@.bus),
            old(self)@.bus.passes_to(final(self)@.bus),
    {
        reveal(CpuModel::running);
        let opcode: u8 = self.fetch();
        let info: OpcodeInfo = opcode_info(opcode);
        proof {
            law_opcode_sizes(opcode);
        }
        let operand: Operand = self.resolve_operand(info.mode);
        let mut cycles: u8 = info.cycles;
        if info.page_cross_penalty && operand.crossed {
            cycles = cycles + 1;
        }
        let dummy: Option<u16> = if operand.crossed || !info.page_cross_penalty {
            operand.uncorrected
        } else {
            None
        };
        self.catch_up(cycles - 1, dummy);
        let masked_before: bool = self.status.contains(StatusFlags::INTERRUPT);
        self.irq_sample = self.bus.irq_line();
        let extra: u8 = self.execute(info.mnemonic, info.mode, operand.addr);
        self.irq_masked = match info.mnemonic {
            Mnemonic::Cli | Mnemonic::Sei | Mnemonic::Plp => masked_before,
            _ => self.status.contains(StatusFlags::INTERRUPT),
        };
        self.tick(1 + extra);
        let _: u32 = self.bus.run_pending_oam_dma();
        cycles + extra
    }
}

} // verus!

//! Where the CPU finds its operands, and how it goes from one instruction to the next.

use vstd::arithmetic::div_mod::lemma_fundamental_div_mod_converse;
use vstd::prelude::*;

use super::memory::lemma_time_keeps_memory;
use super::words::{
    bit, lemma_bits, lemma_fields, lemma_flag_set, lemma_judged, lemma_shifts, lemma_word_fields,
    one_if, signed,
};
use crate::bus::BusModel;
use crate::cpu::flags::StatusFlags;
use crate::cpu::execute::{kind, Kind};
use crate::cpu::opcodes::{decoded, AddrMode, Mnemonic};
use crate::cpu::{displaced, next_in_page, word, CpuModel, Operand};

verus! {

/// A machine with its RAM.
pub open spec fn plain(b: BusModel) -> bool {
    b.ram.len() == 0x0800 && !b.flat()
}

/// The RAM of the stack is read and written byte by byte.
proof fn lemma_stack(b: BusModel, s: u8, value: u8)
    requires
        plain(b),
    ensures
        b.value_read((0x0100 + s) as u16) == b.ram[0x0100 + s],
        b.after_read((0x0100 + s) as u16).ram == b.ram,
        plain(b.after_read((0x0100 + s) as u16)),
        b.after_read((0x0100 + s) as u16).cart() == b.cart(),
        b.written((0x0100 + s) as u16, value, false).ram == b.ram.update(0x0100 + s, value),
        plain(b.written((0x0100 + s) as u16, value, false)),
        b.written((0x0100 + s) as u16, value, false).cart() == b.cart(),
{
    reveal(BusModel::value_read);
    reveal(BusModel::after_read);
    reveal(BusModel::written);
    let addr = (0x0100 + s) as u16;
    assert(addr & 0x07FF == addr) by {
        lemma_word_fields(addr);
    }
}

/// A byte of the program is read without disturbing anything.
pub proof fn lemma_program(b: BusModel, addr: u16)
    requires
        plain(b),
        addr >= 0x8000,
    ensures
        b.value_read(addr) == b.cart().prg_byte(addr),
        b.after_read(addr).ram == b.ram,
        plain(b.after_read(addr)),
        b.after_read(addr).cart() == b.cart(),
        b.after_read(addr).units == b.units,
{
    reveal(BusModel::value_read);
    reveal(BusModel::after_read);
}

proof fn lemma_time(b: BusModel, n: int)
    requires
        plain(b),
    ensures
        plain(b.advanced(n)),
        b.advanced(n).ram == b.ram,
        b.advanced(n).cart() == b.cart(),
{
    lemma_time_keeps_memory(b, n);
    reveal(BusModel::advanced);
}

/// PHA puts the accumulator on the stack and PHP the flags, with bits 4 and 5 set: at `$0100` plus
/// the stack pointer, which goes down by one, around at 0.
pub proof fn law_pushes_push(c: CpuModel, mode: AddrMode, addr: u16, flags: u8)
    requires
        plain(c.bus),
        forall|i: u8|
            i < 8 ==> #[trigger] bit(flags, i) == (c.status.flag(i) || i == 4 || i == 5),
    ensures
        ({
            let d = c.executing(Mnemonic::Pha, mode, addr).0;
            let e = c.executing(Mnemonic::Php, mode, addr).0;
            let sp = if c.sp == 0 { 255 } else { c.sp - 1 };
            &&& d.bus.ram == c.bus.ram.update(0x0100 + c.sp, c.a)
            &&& e.bus.ram == c.bus.ram.update(0x0100 + c.sp, flags)
            &&& d.sp == sp
            &&& e.sp == sp
            &&& d == CpuModel { sp: d.sp, bus: d.bus, ..c }
            &&& e == CpuModel { sp: e.sp, bus: e.bus, ..c }
        }),
{
    reveal(CpuModel::executing);
    reveal(CpuModel::stacked);
    lemma_pushed_flags(c, flags);
    lemma_stack(c.bus, c.sp, c.a);
    lemma_stack(c.bus, c.sp, flags);
}

#[verifier::rlimit(40)]
proof fn lemma_same_bits(a: u8, b: u8)
    requires
        forall|i: u8| i < 8 ==> #[trigger] bit(a, i) == bit(b, i),
    ensures
        a == b,
{
    let m = a ^ b;
    assert forall|i: u8| i < 8 implies !(#[trigger] bit(m, i)) by {
        lemma_bits(a, b, i);
        assert(bit(a, i) == bit(b, i));
    }
    assert(!bit(m, 0) && !bit(m, 1) && !bit(m, 2) && !bit(m, 3) && !bit(m, 4) && !bit(m, 5)
        && !bit(m, 6) && !bit(m, 7));
    lemma_shifts(m);
    lemma_bits(a, b, 0);
}

proof fn lemma_pushed_flags(c: CpuModel, flags: u8)
    requires
        forall|i: u8|
            i < 8 ==> #[trigger] bit(flags, i) == (c.status.flag(i) || i == 4 || i == 5),
    ensures
        c.pushed_flags() == flags,
{
    let s = c.status.with(0x10, true).with(0x20, true);
    assert forall|i: u8| i < 8 implies #[trigger] bit(flags, i) == bit(s.raw, i) by {
        lemma_flag_set(c.status, 0x10, true, i);
        lemma_flag_set(c.status.with(0x10, true), 0x20, true, i);
        assert(s.flag(i) == bit(s.raw, i));
    }
    lemma_same_bits(flags, s.raw);
}

/// The flags that came from the stack: bit 4 is clear and bit 5 set.
pub open spec fn restored(status: StatusFlags, value: u8) -> bool {
    forall|i: u8|
        i < 8 ==> #[trigger] status.flag(i) == if i == 4 {
            false
        } else if i == 5 {
            true
        } else {
            bit(value, i)
        }
}

proof fn lemma_restored(c: CpuModel, value: u8)
    ensures
        restored(c.with_flags(value).status, value),
{
    let s = StatusFlags { raw: value };
    assert forall|i: u8| i < 8 implies #[trigger] c.with_flags(value).status.flag(i) == if i == 4 {
        false
    } else if i == 5 {
        true
    } else {
        bit(value, i)
    } by {
        lemma_flag_set(s, 0x10, false, i);
        lemma_flag_set(s.with(0x10, false), 0x20, true, i);
    }
}

/// PLA takes the accumulator from the stack, and the flags tell of it; PLP takes the flags, but for
/// bits 4 and 5. The stack pointer goes up by one first, around at 255.
pub proof fn law_pulls_pull(c: CpuModel, mode: AddrMode, addr: u16)
    requires
        plain(c.bus),
    ensures
        ({
            let d = c.executing(Mnemonic::Pla, mode, addr).0;
            let e = c.executing(Mnemonic::Plp, mode, addr).0;
            let sp = if c.sp == 255 { 0 } else { c.sp + 1 };
            let value = c.bus.ram[0x0100 + sp];
            &&& d.sp == sp
            &&& e.sp == sp
            &&& d.a == value
            &&& d.status.tell(c.status, value)
            &&& restored(e.status, value)
            &&& d.bus.ram == c.bus.ram
            &&& e.bus.ram == c.bus.ram
            &&& d == CpuModel { sp: d.sp, a: d.a, status: d.status, bus: d.bus, ..c }
            &&& e == CpuModel { sp: e.sp, status: e.status, bus: e.bus, ..c }
        }),
{
    reveal(CpuModel::executing);
    reveal(CpuModel::stacked);
    let sp = c.sp.wrapping_add(1);
    let value = c.bus.ram[0x0100 + sp];
    lemma_stack(c.bus, sp, 0);
    lemma_judged(c.status, value);
    lemma_restored(CpuModel { sp, ..c }.reading((0x0100 + sp) as u16).0, value);
}

/// What PHA pushed PLA pulls, whatever the registers were in between; what PHP pushed PLP pulls.
pub proof fn law_pull_undoes_push(c: CpuModel, mode: AddrMode, addr: u16, a: u8, raw: u8)
    requires
        plain(c.bus),
    ensures
        ({
            let d = c.executing(Mnemonic::Pha, mode, addr).0;
            let e = CpuModel { a, ..d }.executing(Mnemonic::Pla, mode, addr).0;
            &&& e.a == c.a
            &&& e.sp == c.sp
        }),
        ({
            let d = c.executing(Mnemonic::Php, mode, addr).0;
            let e = CpuModel { status: StatusFlags { raw }, ..d }.executing(
                Mnemonic::Plp,
                mode,
                addr,
            ).0;
            &&& restored(e.status, c.status.raw)
            &&& e.sp == c.sp
        }),
{
    let s = c.status.with(0x10, true).with(0x20, true);
    assert forall|i: u8| i < 8 implies #[trigger] bit(s.raw, i) == (c.status.flag(i) || i == 4 || i
        == 5) by {
        lemma_flag_set(c.status, 0x10, true, i);
        lemma_flag_set(c.status.with(0x10, true), 0x20, true, i);
        assert(s.flag(i) == bit(s.raw, i));
    }
    law_pushes_push(c, mode, addr, s.raw);
    let d = c.executing(Mnemonic::Pha, mode, addr).0;
    let e = c.executing(Mnemonic::Php, mode, addr).0;
    reveal(CpuModel::executing);
    reveal(CpuModel::stacked);
    lemma_stack(c.bus, c.sp, c.a);
    lemma_stack(c.bus, c.sp, s.raw);
    law_pulls_pull(CpuModel { a, ..d }, mode, addr);
    let f = CpuModel { status: StatusFlags { raw }, ..e };
    law_pulls_pull(f, mode, addr);
    let g = f.executing(Mnemonic::Plp, mode, addr).0;
    assert forall|i: u8| i < 8 implies #[trigger] g.status.flag(i) == if i == 4 {
        false
    } else if i == 5 {
        true
    } else {
        bit(c.status.raw, i)
    } by {
        assert(bit(s.raw, i) == (c.status.flag(i) || i == 4 || i == 5));
    }
}

#[verifier::rlimit(40)]
proof fn lemma_word_pushed(c: CpuModel, value: u16)
    requires
        plain(c.bus),
    ensures
        ({
            let d = c.pushed_word(value);
            &&& plain(d.bus)
            &&& d.bus.ram == c.bus.ram.update(0x0100 + c.sp, (value / 256) as u8).update(
                0x0100 + (c.sp - 1) % 256,
                (value % 256) as u8,
            )
            &&& d.sp == (c.sp - 2) % 256
            &&& d.bus.cart() == c.bus.cart()
            &&& d == CpuModel { sp: d.sp, bus: d.bus, ..c }
        }),
{
    lemma_stack(c.bus, c.sp, (value / 256) as u8);
    let d = c.pushed((value / 256) as u8);
    lemma_stack(d.bus, d.sp, (value % 256) as u8);
}

#[verifier::rlimit(40)]
proof fn lemma_word_popped(c: CpuModel)
    requires
        plain(c.bus),
    ensures
        ({
            let (d, value) = c.popping_word();
            &&& plain(d.bus)
            &&& value == c.bus.ram[0x0100 + (c.sp + 1) % 256] + 256 * c.bus.ram[0x0100 + (c.sp + 2)
                % 256]
            &&& d.sp == (c.sp + 2) % 256
            &&& d.bus.ram == c.bus.ram
            &&& d == CpuModel { sp: d.sp, bus: d.bus, ..c }
        }),
{
    let s = c.sp.wrapping_add(1);
    lemma_stack(c.bus, s, 0);
    let d = c.popping().0;
    lemma_stack(d.bus, s.wrapping_add(1), 0);
}

/// JMP goes on at its target; so does JSR, and RTS after it comes back behind the JSR, with the
/// stack pointer and the registers as they were.
#[verifier::rlimit(40)]
pub proof fn law_returns_undo_calls(
    c: CpuModel,
    mode: AddrMode,
    addr: u16,
    other: AddrMode,
    unused: u16,
)
    requires
        plain(c.bus),
    ensures
        c.executing(Mnemonic::Jmp, mode, addr).0 == (CpuModel { pc: addr, ..c }),
        ({
            let d = c.executing(Mnemonic::Jsr, mode, addr).0;
            let e = d.executing(Mnemonic::Rts, other, unused).0;
            &&& d.pc == addr
            &&& d.sp == (c.sp - 2) % 256
            &&& d == CpuModel { pc: d.pc, sp: d.sp, bus: d.bus, ..c }
            &&& e.pc == c.pc
            &&& e.sp == c.sp
            &&& e == CpuModel { bus: e.bus, ..c }
        }),
{
    reveal(CpuModel::executing);
    reveal(CpuModel::jumped);
    lemma_word_pushed(c, c.pc.wrapping_sub(1));
    let d = c.executing(Mnemonic::Jsr, mode, addr).0;
    lemma_word_popped(d);
}

/// RTS goes on one behind the address on the stack, low byte first.
#[verifier::rlimit(40)]
pub proof fn law_returns_return(c: CpuModel, mode: AddrMode, addr: u16)
    requires
        plain(c.bus),
    ensures
        ({
            let d = c.executing(Mnemonic::Rts, mode, addr).0;
            let low = c.bus.ram[0x0100 + (c.sp + 1) % 256];
            let high = c.bus.ram[0x0100 + (c.sp + 2) % 256];
            &&& d.pc == (low + 256 * high + 1) % 0x1_0000
            &&& d.sp == (c.sp + 2) % 256
            &&& d == CpuModel { pc: d.pc, sp: d.sp, bus: d.bus, ..c }
        }),
{
    reveal(CpuModel::executing);
    reveal(CpuModel::jumped);
    lemma_word_popped(c);
}

/// What interrupts and BRK have in common: the address to come back to and the flags are on the
/// stack, the interrupt flag is set, and the CPU goes on where the vector points.
pub open spec fn diverted(c: CpuModel, d: CpuModel, back: int, flags: u8, vector: u16) -> bool {
    &&& d.pc == c.bus.cart().prg_byte(vector) + 256 * c.bus.cart().prg_byte((vector + 1) as u16)
    &&& d.sp == (c.sp - 3) % 256
    &&& d.bus.ram == c.bus.ram.update(0x0100 + c.sp, (back / 256) as u8).update(
        0x0100 + (c.sp - 1) % 256,
        (back % 256) as u8,
    ).update(0x0100 + (c.sp - 2) % 256, flags)
    &&& d.a == c.a
    &&& d.x == c.x
    &&& d.y == c.y
    &&& forall|i: u8| i < 8 ==> #[trigger] d.status.flag(i) == (c.status.flag(i) || i == 2)
}

proof fn lemma_diverted(c: CpuModel, back: u16, flags: u8, vector: u16)
    requires
        plain(c.bus),
        0x8000 <= vector < 0xFFFF,
    ensures
        ({
            let (d, target) = c.pushed_word(back).pushed(flags).reading_word(
                vector,
                (vector + 1) as u16,
            );
            &&& diverted(
                c,
                CpuModel { pc: target, status: c.status.with(0x04, true), ..d },
                back as int,
                flags,
                vector,
            )
            &&& plain(d.bus)
        }),
{
    lemma_word_pushed(c, back);
    let d = c.pushed_word(back);
    lemma_stack(d.bus, d.sp, flags);
    let e = d.pushed(flags);
    lemma_program(e.bus, vector);
    lemma_program(e.bus.after_read(vector), (vector + 1) as u16);
    assert forall|i: u8| i < 8 implies #[trigger] c.status.with(0x04, true).flag(i) == (
    c.status.flag(i) || i == 2) by {
        lemma_flag_set(c.status, 0x04, true, i);
    }
}

/// An NMI or IRQ pushes the address of the next instruction and the flags, with bit 4 clear and bit
/// 5 set, and goes on where its vector points, with the interrupt flag set.
pub proof fn law_interrupts_divert(c: CpuModel, vector: u16, flags: u8)
    requires
        plain(c.bus),
        vector == 0xFFFA || vector == 0xFFFE,
        restored(StatusFlags { raw: flags }, c.status.raw),
    ensures
        diverted(c, c.served(vector), c.pc as int, flags, vector),
        plain(c.served(vector).bus),
        !c.served(vector).irq_sample,
        c.served(vector).irq_masked,
        c.served(vector).jammed == c.jammed,
{
    reveal(CpuModel::interrupted);
    let s = c.status.with(0x10, false).with(0x20, true);
    lemma_restored(c, c.status.raw);
    assert forall|i: u8| i < 8 implies #[trigger] bit(flags, i) == bit(s.raw, i) by {
        assert(StatusFlags { raw: flags }.flag(i) == c.with_flags(c.status.raw).status.flag(i));
        assert(c.with_flags(c.status.raw).status == s);
    }
    lemma_same_bits(flags, s.raw);
    lemma_diverted(c, c.pc, s.raw, vector);
    let d = c.pushed_word(c.pc).pushed(s.raw).reading_word(vector, (vector + 1) as u16).0;
    lemma_time(d.bus, 7);
}

/// BRK does the same with the address one further and bits 4 and 5 of the flags set.
#[verifier::rlimit(40)]
pub proof fn law_brk_diverts(c: CpuModel, mode: AddrMode, addr: u16, flags: u8)
    requires
        plain(c.bus),
        forall|i: u8|
            i < 8 ==> #[trigger] bit(flags, i) == (c.status.flag(i) || i == 4 || i == 5),
    ensures
        diverted(
            c,
            c.executing(Mnemonic::Brk, mode, addr).0,
            (c.pc + 1) % 0x1_0000,
            flags,
            0xFFFE,
        ),
        c.executing(Mnemonic::Brk, mode, addr).0.jammed == c.jammed,
{
    reveal(CpuModel::executing);
    reveal(CpuModel::jumped);
    lemma_pushed_flags(c, flags);
    lemma_diverted(c, c.pc.wrapping_add(1), flags, 0xFFFE);
}

/// RTI takes the flags and then the address from the stack.
#[verifier::rlimit(40)]
pub proof fn law_rti_restores(c: CpuModel, mode: AddrMode, addr: u16)
    requires
        plain(c.bus),
    ensures
        ({
            let d = c.executing(Mnemonic::Rti, mode, addr).0;
            let ram = c.bus.ram;
            &&& restored(d.status, ram[0x0100 + (c.sp + 1) % 256])
            &&& d.pc == ram[0x0100 + (c.sp + 2) % 256] + 256 * ram[0x0100 + (c.sp + 3) % 256]
            &&& d.sp == (c.sp + 3) % 256
            &&& d.bus.ram == ram
            &&& d == CpuModel { pc: d.pc, sp: d.sp, status: d.status, bus: d.bus, ..c }
        }),
{
    reveal(CpuModel::executing);
    reveal(CpuModel::jumped);
    let s = c.sp.wrapping_add(1);
    lemma_stack(c.bus, s, 0);
    let d = c.popping().0;
    let value = c.bus.ram[0x0100 + s];
    lemma_restored(d, value);
    lemma_word_popped(d.with_flags(value));
}

/// RTI after an interrupt comes back to where it was, with the flags as they were but for bits 4
/// and 5, and all registers.
#[verifier::rlimit(40)]
pub proof fn law_rti_undoes_an_interrupt(c: CpuModel, vector: u16, mode: AddrMode, addr: u16)
    requires
        plain(c.bus),
        vector == 0xFFFA || vector == 0xFFFE,
    ensures
        ({
            let d = c.served(vector).executing(Mnemonic::Rti, mode, addr).0;
            &&& d.pc == c.pc
            &&& d.sp == c.sp
            &&& restored(d.status, c.status.raw)
            &&& d.a == c.a && d.x == c.x && d.y == c.y
        }),
{
    let s = c.status.with(0x10, false).with(0x20, true);
    lemma_restored(c, c.status.raw);
    assert(c.with_flags(c.status.raw).status == s);
    law_interrupts_divert(c, vector, s.raw);
    let e = c.served(vector);
    law_rti_restores(e, mode, addr);
    let d = e.executing(Mnemonic::Rti, mode, addr).0;
    assert(e.bus.ram[0x0100 + (e.sp + 1) % 256] == s.raw);
    assert forall|i: u8| i < 8 implies #[trigger] d.status.flag(i) == if i == 4 {
        false
    } else if i == 5 {
        true
    } else {
        bit(c.status.raw, i)
    } by {
        assert(s.flag(i) == bit(s.raw, i));
    }
}

/// A reset goes on where its vector points, with the stack pointer at `$FD` and the interrupt flag
/// set; the accumulator, X and Y stay.
#[verifier::rlimit(40)]
pub proof fn law_a_reset_starts_over(c: CpuModel)
    requires
        plain(c.bus),
    ensures
        ({
            let d = c.was_reset();
            let cart = c.bus.cart();
            &&& d.pc == cart.prg_byte(0xFFFC) + 256 * cart.prg_byte(0xFFFD)
            &&& d.sp == 0xFD
            &&& d.status.flag(2)
            &&& !d.jammed
            &&& !d.irq_sample
            &&& d.irq_masked
            &&& d.a == c.a && d.x == c.x && d.y == c.y
            &&& d.bus.ram == c.bus.ram
        }),
{
    lemma_program(c.bus, 0xFFFC);
    lemma_program(c.bus.after_read(0xFFFC), 0xFFFD);
    lemma_time(c.bus.after_read(0xFFFC).after_read(0xFFFD), 7);
    lemma_fields(0x24);
}

/// A CPU that stopped lets two cycles pass. Otherwise an NMI goes first, then an IRQ that was seen
/// during the last instruction unless it was masked, and else the next instruction runs.
pub proof fn law_steps_serve_interrupts_first(c: CpuModel)
    ensures
        ({
            let (d, cycles) = c.stepping();
            let polled = c.on(c.bus.with_ppu(c.bus.ppu().nmi_taken()));
            let nmi = c.bus.ppu().nmi_pending && !c.bus.ppu().nmi_delay;
            let irq = c.irq_sample && !c.irq_masked;
            &&& c.jammed ==> d == c.on(c.bus.advanced(2)) && cycles == 2
            &&& !c.jammed && nmi ==> d == polled.served(0xFFFA) && cycles == 7
            &&& !c.jammed && !nmi && irq ==> d == polled.served(0xFFFE) && cycles == 7
            &&& !c.jammed && !nmi && !irq ==> (d, cycles) == polled.running()
        }),
{
    reveal(CpuModel::stepping);
    reveal(BusModel::nmi_ready);
    reveal(BusModel::nmi_polled);
}

/// `self` and `other` have the same registers and flags.
pub open spec fn same_registers(c: CpuModel, d: CpuModel) -> bool {
    c.a == d.a && c.x == d.x && c.y == d.y && c.sp == d.sp && c.pc == d.pc && c.status == d.status
        && c.jammed == d.jammed
}

proof fn lemma_registers_of_a_read(c: CpuModel, d: CpuModel, mnemonic: Mnemonic, v: u8)
    requires
        same_registers(c, d),
    ensures
        same_registers(c.value_applied(mnemonic, v), d.value_applied(mnemonic, v)),
{
    reveal(CpuModel::value_applied);
    reveal(CpuModel::loaded);
    reveal(CpuModel::calculated);
    reveal(CpuModel::tested);
    reveal(CpuModel::masked);
}

/// An instruction with an immediate operand in the program does to the registers what it does with
/// that operand anywhere, goes on behind it, and takes two cycles.
#[verifier::rlimit(40)]
pub proof fn law_a_program_runs(c: CpuModel, elsewhere: BusModel)
    requires
        plain(c.bus),
        0x8000 <= c.pc < 0xFFFE,
        decoded(c.bus.cart().prg_byte(c.pc)).mode == AddrMode::Immediate,
        elsewhere.value_read((c.pc + 1) as u16) == c.bus.cart().prg_byte((c.pc + 1) as u16),
    ensures
        ({
            let mnemonic = decoded(c.bus.cart().prg_byte(c.pc)).mnemonic;
            let e = CpuModel { pc: (c.pc + 2) as u16, bus: elsewhere, ..c }.executing(
                mnemonic,
                AddrMode::Immediate,
                (c.pc + 1) as u16,
            ).0;
            &&& same_registers(c.running().0, e)
            &&& c.running().1 == 2
            &&& c.running().0.irq_masked == e.status.flag(2)
        }),
{
    reveal(CpuModel::running);
    reveal(CpuModel::locating);
    reveal(CpuModel::caught_up);
    reveal(CpuModel::executing);
    let opcode = c.bus.cart().prg_byte(c.pc);
    let info = decoded(opcode);
    lemma_immediate(opcode);
    lemma_program(c.bus, c.pc);
    let next = (c.pc + 1) as u16;
    let b = c.bus.after_read(c.pc);
    lemma_time(b, 1);
    lemma_program(b.advanced(1), next);
    let sampled = CpuModel {
        pc: (c.pc + 2) as u16,
        irq_sample: b.advanced(1).interrupts(),
        bus: b.advanced(1),
        ..c
    };
    let other = CpuModel { pc: (c.pc + 2) as u16, bus: elsewhere, ..c };
    lemma_registers_of_a_read(
        sampled.reading(next).0,
        other.reading(next).0,
        info.mnemonic,
        sampled.bus.value_read(next),
    );
    let done = sampled.executing(info.mnemonic, info.mode, next).0;
    lemma_shifts(done.status.raw);
}

/// Instructions with an immediate operand read it.
pub proof fn lemma_immediate(opcode: u8)
    requires
        decoded(opcode).mode == AddrMode::Immediate,
    ensures
        kind(decoded(opcode).mnemonic) == Kind::Reads,
        decoded(opcode).cycles == 2,
        !CpuModel::masks_late(decoded(opcode).mnemonic),
{
    reveal(decoded);
}

/// An instruction takes the cycles of its opcode, one more where reading with an index leaves the
/// page, and those of a branch that is taken; time passes for as many.
#[verifier::rlimit(40)]
pub proof fn law_instructions_take_their_time(c: CpuModel)
    ensures
        ({
            let opcode = c.bus.value_read(c.pc);
            let info = decoded(opcode);
            let after = CpuModel {
                pc: ((c.pc + 1) % 0x1_0000) as u16,
                bus: c.bus.after_read(c.pc),
                ..c
            };
            let operand = after.locating(info.mode).1;
            let base = info.cycles + one_if(info.page_cross_penalty && operand.crossed);
            &&& info.mode != AddrMode::Relative ==> c.running().1 == base
            &&& info.mode == AddrMode::Relative ==> 2 <= c.running().1 <= 4
        }),
{
    reveal(CpuModel::running);
    let opcode = c.bus.value_read(c.pc);
    let info = decoded(opcode);
    lemma_branches(opcode);
    let (located, operand) = c.fetching().0.locating(info.mode);
    let ready = located.caught_up(operand.cycles(info) - 1, operand.dummy(info));
    let sampled = CpuModel { irq_sample: ready.bus.interrupts(), ..ready };
    assert(info.mode != AddrMode::Relative ==> sampled.executing(
        info.mnemonic,
        info.mode,
        operand.addr,
    ).1 == 0) by {
        reveal(CpuModel::executing);
    }
    assert(sampled.executing(info.mnemonic, info.mode, operand.addr).1 <= 2) by {
        reveal(CpuModel::executing);
    }
}

proof fn lemma_branches(opcode: u8)
    ensures
        kind(decoded(opcode).mnemonic) == Kind::Branches <==> decoded(opcode).mode
            == AddrMode::Relative,
        decoded(opcode).cycles <= 8,
        decoded(opcode).mode == AddrMode::Relative ==> decoded(opcode).cycles == 2
            && !decoded(opcode).page_cross_penalty,
{
    reveal(decoded);
}

/// The modes without memory, and the immediate one: the operand is the byte behind the opcode.
#[verifier::rlimit(40)]
pub proof fn law_immediate_operands(c: CpuModel)
    ensures
        c.locating(AddrMode::Implied).0 == c,
        c.locating(AddrMode::Accumulator).0 == c,
        ({
            let (d, operand) = c.locating(AddrMode::Immediate);
            &&& operand.addr == c.pc
            &&& !operand.crossed
            &&& operand.uncorrected is None
            &&& d.pc == (c.pc + 1) % 0x1_0000
            &&& d == CpuModel { pc: d.pc, ..c }
        }),
{
    reveal(CpuModel::locating);
}

#[verifier::rlimit(40)]
proof fn lemma_wraps(pc: u16, base: u8, index: u8)
    ensures
        pc.wrapping_add(1) == (pc + 1) % 0x1_0000,
        base.wrapping_add(index) == (base + index) % 256,
        base.wrapping_add(index).wrapping_add(1) == (base + index + 1) % 256,
        displaced(pc, base) == (pc + signed(base)) % 0x1_0000,
{
}

/// In the zero page the operand is at the byte behind the opcode, to which an index is added without
/// leaving the page.
#[verifier::rlimit(40)]
pub proof fn law_zero_page_operands(c: CpuModel, mode: AddrMode)
    requires
        mode == AddrMode::ZeroPage || mode == AddrMode::ZeroPageX || mode == AddrMode::ZeroPageY,
    ensures
        ({
            let (d, operand) = c.locating(mode);
            let base = c.bus.value_read(c.pc);
            let index = if mode == AddrMode::ZeroPageX {
                c.x
            } else if mode == AddrMode::ZeroPageY {
                c.y
            } else {
                0
            };
            &&& operand.addr == (base + index) % 256
            &&& !operand.crossed
            &&& operand.uncorrected is None
            &&& d.pc == (c.pc + 1) % 0x1_0000
            &&& d == CpuModel { pc: d.pc, bus: c.bus.after_read(c.pc), ..c }
        }),
{
    reveal(CpuModel::locating);
    let base = c.bus.value_read(c.pc);
    lemma_wraps(c.pc, base, c.x);
    lemma_wraps(c.pc, base, c.y);
    lemma_wraps(c.pc, base, 0);
}

#[verifier::rlimit(40)]
proof fn lemma_indexed(low: u8, high: u8, index: u8)
    ensures
        word(low, high) == low + 256 * high,
        ({
            let o = Operand::indexed(word(low, high), index);
            &&& o.addr == (low + 256 * high + index) % 0x1_0000
            &&& o.crossed == (low + index > 255)
            &&& o.uncorrected == Some((256 * high + (low + index) % 256) as u16)
        }),
{
    let base = word(low, high);
    let carry = if low + index > 255 { 1int } else { 0 };
    let l = low + index - 256 * carry;
    let h = if high + carry == 256 { 0 } else { high + carry };
    let addr = base.wrapping_add(index as u16);
    assert(addr == h * 256 + l);
    lemma_fundamental_div_mod_converse(base as int, 256, high as int, low as int);
    lemma_fundamental_div_mod_converse(addr as int, 256, h, l);
    lemma_fundamental_div_mod_converse(low + index, 256, carry, l);
}

/// The absolute modes take the address from the two bytes behind the opcode, low byte first, and add
/// an index. It crosses a page if the sum of the low bytes does; the address before the correction
/// of the page is on the page of the base.
#[verifier::rlimit(40)]
pub proof fn law_absolute_operands(c: CpuModel, mode: AddrMode)
    requires
        mode == AddrMode::Absolute || mode == AddrMode::AbsoluteX || mode == AddrMode::AbsoluteY,
    ensures
        ({
            let (d, operand) = c.locating(mode);
            let next = ((c.pc + 1) % 0x1_0000) as u16;
            let low = c.bus.value_read(c.pc);
            let high = c.bus.after_read(c.pc).value_read(next);
            let index = if mode == AddrMode::AbsoluteX {
                c.x
            } else if mode == AddrMode::AbsoluteY {
                c.y
            } else {
                0
            };
            &&& operand.addr == (low + 256 * high + index) % 0x1_0000
            &&& operand.crossed == (low + index > 255)
            &&& operand.uncorrected == if mode == AddrMode::Absolute {
                None
            } else {
                Some((256 * high + (low + index) % 256) as u16)
            }
            &&& d.pc == (c.pc + 2) % 0x1_0000
            &&& d == CpuModel {
                pc: d.pc,
                bus: c.bus.after_read(c.pc).after_read(next),
                ..c
            }
        }),
{
    reveal(CpuModel::locating);
    let low = c.bus.value_read(c.pc);
    let high = c.bus.after_read(c.pc).value_read(c.pc.wrapping_add(1));
    lemma_indexed(low, high, c.x);
    lemma_indexed(low, high, c.y);
}

/// JMP's indirect mode takes the target from where the two bytes point; its high byte comes from the
/// same page, even where the low byte is the last of it.
#[verifier::rlimit(40)]
pub proof fn law_indirect_operands(c: CpuModel)
    ensures
        ({
            let (d, operand) = c.locating(AddrMode::Indirect);
            let next = ((c.pc + 1) % 0x1_0000) as u16;
            let low = c.bus.value_read(c.pc);
            let b = c.bus.after_read(c.pc);
            let high = b.value_read(next);
            let e = b.after_read(next);
            let first = (low + 256 * high) as u16;
            let second = ((low + 1) % 256 + 256 * high) as u16;
            &&& operand.addr == e.value_read(first) + 256 * e.after_read(first).value_read(second)
            &&& !operand.crossed
            &&& operand.uncorrected is None
            &&& d.pc == (c.pc + 2) % 0x1_0000
            &&& d == CpuModel { pc: d.pc, bus: e.after_read(first).after_read(second), ..c }
        }),
{
    reveal(CpuModel::locating);
    let low = c.bus.value_read(c.pc);
    let next = c.pc.wrapping_add(1);
    let high = c.bus.after_read(c.pc).value_read(next);
    lemma_wraps(c.pc, low, 0);
    lemma_wraps(next, low, 0);
    lemma_indexed(low, high, 0);
    let first = word(low, high);
    assert(first as int % 256 == low && first - first as int % 256 == 256 * high);
    assert(next_in_page(first) == (low + 1) % 256 + 256 * high);
    let e = c.bus.after_read(c.pc).after_read(next);
    let second = next_in_page(first);
    lemma_indexed(e.value_read(first), e.after_read(first).value_read(second), 0);
}

/// The indexed indirect modes take the address from two bytes of the zero page, which wraps: at the
/// byte behind the opcode plus X, or at that byte, with Y added to the address.
#[verifier::rlimit(40)]
pub proof fn law_indexed_indirect_operands(c: CpuModel, mode: AddrMode)
    requires
        mode == AddrMode::IndirectX || mode == AddrMode::IndirectY,
    ensures
        ({
            let (d, operand) = c.locating(mode);
            let before = if mode == AddrMode::IndirectX { c.x } else { 0 };
            let behind = if mode == AddrMode::IndirectY { c.y } else { 0 };
            let base = c.bus.value_read(c.pc);
            let b = c.bus.after_read(c.pc);
            let first = ((base + before) % 256) as u16;
            let second = ((base + before + 1) % 256) as u16;
            let low = b.value_read(first);
            let high = b.after_read(first).value_read(second);
            &&& operand.addr == (low + 256 * high + behind) % 0x1_0000
            &&& operand.crossed == (low + behind > 255)
            &&& operand.uncorrected == if mode == AddrMode::IndirectX {
                None
            } else {
                Some((256 * high + (low + behind) % 256) as u16)
            }
            &&& d.pc == (c.pc + 1) % 0x1_0000
            &&& d == CpuModel { pc: d.pc, bus: b.after_read(first).after_read(second), ..c }
        }),
{
    reveal(CpuModel::locating);
    let base = c.bus.value_read(c.pc);
    let b = c.bus.after_read(c.pc);
    if mode == AddrMode::IndirectX {
        let first = base.wrapping_add(c.x);
        lemma_wraps(c.pc, base, c.x);
        let low = b.value_read(first as u16);
        lemma_indexed(low, b.after_read(first as u16).value_read(first.wrapping_add(1) as u16), 0);
    } else {
        lemma_wraps(c.pc, base, 0);
        let low = b.value_read(base as u16);
        lemma_indexed(low, b.after_read(base as u16).value_read(base.wrapping_add(1) as u16), c.y);
    }
}

/// A branch goes to the address behind it, plus its operand as a signed number.
#[verifier::rlimit(40)]
pub proof fn law_relative_operands(c: CpuModel)
    ensures
        ({
            let (d, operand) = c.locating(AddrMode::Relative);
            let offset = c.bus.value_read(c.pc);
            &&& operand.addr == (c.pc + 1 + signed(offset)) % 0x1_0000
            &&& !operand.crossed
            &&& operand.uncorrected is None
            &&& d.pc == (c.pc + 1) % 0x1_0000
            &&& d == CpuModel { pc: d.pc, bus: c.bus.after_read(c.pc), ..c }
        }),
{
    reveal(CpuModel::locating);
    let offset = c.bus.value_read(c.pc);
    lemma_wraps(c.pc, offset, 0);
    lemma_wraps(c.pc.wrapping_add(1), offset, 0);
    assert(((c.pc + 1) % 0x1_0000 + signed(offset)) % 0x1_0000 == (c.pc + 1 + signed(offset))
        % 0x1_0000);
}

} // verus!

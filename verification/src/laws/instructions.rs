//! What the instructions of the CPU compute: registers, flags and memory, in numbers and bits.

use vstd::prelude::*;

use super::words::{
    bit, lemma_bits, lemma_flag_set, lemma_judged, lemma_judged_with_carry,
    lemma_judged_with_overflow, lemma_shifts, one_if, signed,
};
use crate::cpu::execute::overflows;
use crate::cpu::opcodes::{AddrMode, Mnemonic};
use crate::cpu::CpuModel;

verus! {

impl CpuModel {
    /// The carry flag, as a number.
    pub open spec fn c(self) -> int {
        one_if(self.status.flag(0))
    }

    /// `self` is `before` with one byte read at `addr`, and another accumulator and other flags.
    pub open spec fn only_a_after_reading(self, before: CpuModel, addr: u16) -> bool {
        self == CpuModel {
            a: self.a,
            status: self.status,
            bus: before.bus.after_read(addr),
            ..before
        }
    }
}

/// AND, ORA and EOR work bit by bit: both, either, or exactly one. Zero and negative tell of the
/// result; nothing else changes.
#[verifier::rlimit(40)]
pub proof fn law_logic_works_bit_by_bit(
    c: CpuModel,
    mnemonic: Mnemonic,
    mode: AddrMode,
    addr: u16,
    i: u8,
)
    requires
        mnemonic == Mnemonic::And || mnemonic == Mnemonic::Ora || mnemonic == Mnemonic::Eor,
        mode != AddrMode::Implied,
        i < 8,
    ensures
        ({
            let v = c.bus.value_read(addr);
            let d = c.executing(mnemonic, mode, addr).0;
            &&& mnemonic == Mnemonic::And ==> bit(d.a, i) == (bit(c.a, i) && bit(v, i))
            &&& mnemonic == Mnemonic::Ora ==> bit(d.a, i) == (bit(c.a, i) || bit(v, i))
            &&& mnemonic == Mnemonic::Eor ==> bit(d.a, i) == (bit(c.a, i) != bit(v, i))
            &&& d.status.tell(c.status, d.a)
            &&& d.only_a_after_reading(c, addr)
            &&& c.executing(mnemonic, mode, addr).1 == 0
        }),
{
    broadcast use {lemma_judged, lemma_judged_with_carry};

    reveal(CpuModel::executing);
    reveal(CpuModel::value_applied);
    reveal(CpuModel::calculated);
    let v = c.bus.value_read(addr);
    lemma_bits(c.a, v, i);
    lemma_shifts(c.executing(mnemonic, mode, addr).0.a);
}

/// EOR with the same value twice gives the accumulator back, and EOR of the accumulator with itself
/// gives zero.
pub proof fn law_eor_undoes_itself(c: CpuModel, mode: AddrMode, addr: u16, again: u16)
    requires
        mode != AddrMode::Implied,
        c.executing(Mnemonic::Eor, mode, addr).0.bus.value_read(again) == c.bus.value_read(addr),
    ensures
        ({
            let once = c.executing(Mnemonic::Eor, mode, addr).0;
            let twice = once.executing(Mnemonic::Eor, mode, again).0;
            &&& twice.a == c.a
            &&& c.bus.value_read(addr) == c.a ==> once.a == 0 && once.status.flag(1)
        }),
{
    law_logic_works_bit_by_bit(c, Mnemonic::Eor, mode, addr, 0);
    reveal(CpuModel::executing);
    reveal(CpuModel::value_applied);
    reveal(CpuModel::calculated);
    lemma_bits(c.a, c.bus.value_read(addr), 0);
}

#[verifier::rlimit(40)]
proof fn lemma_added(c: CpuModel, v: u8)
    ensures
        ({
            let d = c.added(v);
            let sum = signed(c.a) + signed(v) + c.c();
            &&& d.a + 256 * d.c() == c.a + v + c.c()
            &&& d.status.are(
                c.status,
                c.a + v + c.c() > 255,
                d.a == 0,
                sum < -128 || sum > 127,
                d.a >= 128,
            )
            &&& d == CpuModel { a: d.a, status: d.status, ..c }
        }),
{
    lemma_shifts(c.status.raw);
    let sum = c.a + v + c.c();
    let result = (sum % 256) as u8;
    assert(c.carry() == c.status.flag(0));
    let over = signed(c.a) + signed(v) + c.c() < -128 || signed(c.a) + signed(v) + c.c() > 127;
    assert(over == overflows(c.a, v, result));
    lemma_judged_with_overflow(c.status, sum > 255, over, result);
}

/// ADC adds the operand and the carry: the accumulator takes the sum modulo 256 and the carry what
/// is above. Overflow tells that the sum of the signed numbers is out of range.
pub proof fn law_adc_adds(c: CpuModel, mode: AddrMode, addr: u16)
    requires
        mode != AddrMode::Implied,
    ensures
        ({
            let v = c.bus.value_read(addr);
            let d = c.executing(Mnemonic::Adc, mode, addr).0;
            let sum = signed(c.a) + signed(v) + c.c();
            &&& d.a + 256 * d.c() == c.a + v + c.c()
            &&& d.status.are(
                c.status,
                c.a + v + c.c() > 255,
                d.a == 0,
                sum < -128 || sum > 127,
                d.a >= 128,
            )
            &&& d.only_a_after_reading(c, addr)
        }),
{
    reveal(CpuModel::executing);
    reveal(CpuModel::value_applied);
    reveal(CpuModel::calculated);
    lemma_added(c.reading(addr).0, c.bus.value_read(addr));
}

/// SBC subtracts the operand, and one more if the carry is clear. The carry is set unless it has to
/// borrow. Overflow tells that the difference of the signed numbers is out of range.
#[verifier::rlimit(40)]
pub proof fn law_sbc_subtracts(c: CpuModel, mode: AddrMode, addr: u16)
    requires
        mode != AddrMode::Implied,
    ensures
        ({
            let v = c.bus.value_read(addr);
            let d = c.executing(Mnemonic::Sbc, mode, addr).0;
            let difference = signed(c.a) - signed(v) - (1 - c.c());
            &&& d.a - 256 * (1 - d.c()) == c.a - v - (1 - c.c())
            &&& d.status.are(
                c.status,
                c.a - v - (1 - c.c()) >= 0,
                d.a == 0,
                difference < -128 || difference > 127,
                d.a >= 128,
            )
            &&& d.only_a_after_reading(c, addr)
        }),
{
    reveal(CpuModel::executing);
    reveal(CpuModel::value_applied);
    reveal(CpuModel::calculated);
    let v = c.bus.value_read(addr);
    lemma_shifts(v);
    lemma_added(c.reading(addr).0, v ^ 0xFF);
}

#[verifier::rlimit(40)]
proof fn lemma_compared(c: CpuModel, reg: u8, v: u8)
    ensures
        ({
            let d = c.compared(reg, v);
            &&& d.status.are(c.status, reg >= v, reg == v, c.status.flag(6), (reg - v) % 256 >= 128)
            &&& d == CpuModel { status: d.status, ..c }
        }),
{
    broadcast use {lemma_judged, lemma_judged_with_carry};

    lemma_shifts(reg.wrapping_sub(v));
}

/// CMP, CPX and CPY compare a register with the operand: carry tells that it is not less, zero that
/// both are equal, negative is the top bit of the difference. No register changes.
#[verifier::rlimit(40)]
pub proof fn law_comparisons_compare(c: CpuModel, mnemonic: Mnemonic, mode: AddrMode, addr: u16)
    requires
        mnemonic == Mnemonic::Cmp || mnemonic == Mnemonic::Cpx || mnemonic == Mnemonic::Cpy,
        mode != AddrMode::Implied,
    ensures
        ({
            let v = c.bus.value_read(addr);
            let reg = if mnemonic == Mnemonic::Cmp {
                c.a
            } else if mnemonic == Mnemonic::Cpx {
                c.x
            } else {
                c.y
            };
            let d = c.executing(mnemonic, mode, addr).0;
            &&& d.status.are(c.status, reg >= v, reg == v, c.status.flag(6), (reg - v) % 256 >= 128)
            &&& d == CpuModel { status: d.status, bus: c.bus.after_read(addr), ..c }
        }),
{
    reveal(CpuModel::executing);
    reveal(CpuModel::value_applied);
    reveal(CpuModel::tested);
    let v = c.bus.value_read(addr);
    lemma_compared(c.reading(addr).0, c.a, v);
    lemma_compared(c.reading(addr).0, c.x, v);
    lemma_compared(c.reading(addr).0, c.y, v);
}

/// BIT tells whether the accumulator and the operand have no bit in common, and copies bits 7 and 6
/// of the operand. No register changes.
#[verifier::rlimit(40)]
pub proof fn law_bit_tests(c: CpuModel, mode: AddrMode, addr: u16)
    requires
        mode != AddrMode::Implied,
    ensures
        ({
            let v = c.bus.value_read(addr);
            let d = c.executing(Mnemonic::Bit, mode, addr).0;
            let apart = forall|i: u8| i < 8 ==> !(#[trigger] bit(c.a, i) && bit(v, i));
            &&& d.status.are(c.status, c.status.flag(0), apart, bit(v, 6), bit(v, 7))
            &&& d == CpuModel { status: d.status, bus: c.bus.after_read(addr), ..c }
        }),
{
    broadcast use lemma_flag_set;

    reveal(CpuModel::executing);
    reveal(CpuModel::value_applied);
    reveal(CpuModel::tested);
    let v = c.bus.value_read(addr);
    lemma_shifts(v);
    lemma_shifts(c.a & v);
    assert forall|i: u8| i < 8 implies bit(c.a & v, i) == (#[trigger] bit(c.a, i) && bit(v, i)) by {
        lemma_bits(c.a, v, i);
    }
    let apart = forall|i: u8| i < 8 ==> !(#[trigger] bit(c.a, i) && bit(v, i));
    assert(apart == (c.a & v == 0)) by {
        if apart {
            assert forall|i: u8| i < 8 implies !#[trigger] bit(c.a & v, i) by {
                assert(!(bit(c.a, i) && bit(v, i)));
                lemma_bits(c.a, v, i);
            }
            assert(!bit(c.a & v, 0) && !bit(c.a & v, 1) && !bit(c.a & v, 2) && !bit(c.a & v, 3)
                && !bit(c.a & v, 4) && !bit(c.a & v, 5) && !bit(c.a & v, 6) && !bit(c.a & v, 7));
        } else {
            let i = choose|i: u8| i < 8 && (#[trigger] bit(c.a, i) && bit(v, i));
            assert(bit(c.a & v, i));
            lemma_bits(0, 0, i);
        }
    }
}

/// LDA, LDX and LDY load their register, LAX and LXA both the accumulator and X, and the flags tell
/// of the value.
#[verifier::rlimit(40)]
pub proof fn law_loads_load(c: CpuModel, mnemonic: Mnemonic, mode: AddrMode, addr: u16)
    requires
        mnemonic == Mnemonic::Lda || mnemonic == Mnemonic::Ldx || mnemonic == Mnemonic::Ldy
            || mnemonic == Mnemonic::Lax || mnemonic == Mnemonic::Lxa,
        mode != AddrMode::Implied,
    ensures
        ({
            let v = c.bus.value_read(addr);
            let d = c.executing(mnemonic, mode, addr).0;
            let to_a = mnemonic != Mnemonic::Ldx && mnemonic != Mnemonic::Ldy;
            let to_x = mnemonic != Mnemonic::Lda && mnemonic != Mnemonic::Ldy;
            &&& d.a == if to_a { v } else { c.a }
            &&& d.x == if to_x { v } else { c.x }
            &&& d.y == if mnemonic == Mnemonic::Ldy { v } else { c.y }
            &&& d.status.tell(c.status, v)
            &&& d == CpuModel {
                a: d.a,
                x: d.x,
                y: d.y,
                status: d.status,
                bus: c.bus.after_read(addr),
                ..c
            }
        }),
{
    broadcast use {lemma_judged, lemma_judged_with_carry};

    reveal(CpuModel::executing);
    reveal(CpuModel::value_applied);
    reveal(CpuModel::loaded);
    let v = c.bus.value_read(addr);
    lemma_bits(c.a, v, 0);
    lemma_shifts(v);
}

/// The undocumented ANC takes the bits that the accumulator and the operand share, and copies the
/// top one to the carry.
#[verifier::rlimit(40)]
pub proof fn law_anc_masks(c: CpuModel, mode: AddrMode, addr: u16, i: u8)
    requires
        mode != AddrMode::Implied,
        i < 8,
    ensures
        ({
            let v = c.bus.value_read(addr);
            let d = c.executing(Mnemonic::Anc, mode, addr).0;
            &&& d.only_a_after_reading(c, addr)
            &&& bit(d.a, i) == (bit(c.a, i) && bit(v, i))
            &&& d.status.tell_with(c.status, bit(d.a, 7), d.a)
        }),
{
    broadcast use lemma_flag_set;

    reveal(CpuModel::executing);
    reveal(CpuModel::value_applied);
    reveal(CpuModel::masked);
    let v = c.bus.value_read(addr);
    lemma_bits(c.a, v, i);
    lemma_shifts(c.a & v);
    lemma_judged(c.status, c.a & v);
    lemma_shifts(c.status.judged(c.a & v).raw);
}

/// ALR takes the bits that the accumulator and the operand share and shifts them right, the lowest
/// into the carry.
#[verifier::rlimit(40)]
pub proof fn law_alr_shifts(c: CpuModel, mode: AddrMode, addr: u16, i: u8)
    requires
        mode != AddrMode::Implied,
        i < 7,
    ensures
        ({
            let v = c.bus.value_read(addr);
            let d = c.executing(Mnemonic::Alr, mode, addr).0;
            let next = (i + 1) as u8;
            &&& d.only_a_after_reading(c, addr)
            &&& bit(d.a, i) == (bit(c.a, next) && bit(v, next))
            &&& !bit(d.a, 7)
            &&& d.status.tell_with(c.status, bit(c.a, 0) && bit(v, 0), d.a)
        }),
{
    broadcast use lemma_judged_with_carry;

    reveal(CpuModel::executing);
    reveal(CpuModel::value_applied);
    reveal(CpuModel::masked);
    let v = c.bus.value_read(addr);
    lemma_bits(c.a, v, 0);
    lemma_bits(c.a, v, (i + 1) as u8);
    lemma_bits(c.a & v, 0, i);
    lemma_bits(c.a & v, 0, 7);
    lemma_shifts(c.a & v);
}

/// ARR takes those bits and rotates them right through the carry, which becomes bit 6 of the
/// result. Overflow tells whether bits 6 and 5 differ.
#[verifier::rlimit(40)]
pub proof fn law_arr_rotates(c: CpuModel, mode: AddrMode, addr: u16, i: u8)
    requires
        mode != AddrMode::Implied,
        i < 7,
    ensures
        ({
            let v = c.bus.value_read(addr);
            let d = c.executing(Mnemonic::Arr, mode, addr).0;
            let next = (i + 1) as u8;
            &&& d.only_a_after_reading(c, addr)
            &&& bit(d.a, i) == (bit(c.a, next) && bit(v, next))
            &&& bit(d.a, 7) == c.status.flag(0)
            &&& d.status.are(
                c.status,
                bit(d.a, 6),
                d.a == 0,
                bit(d.a, 6) != bit(d.a, 5),
                d.a >= 128,
            )
        }),
{
    reveal(CpuModel::executing);
    reveal(CpuModel::value_applied);
    reveal(CpuModel::masked);
    let v = c.bus.value_read(addr);
    let d = c.executing(Mnemonic::Arr, mode, addr).0;
    lemma_bits(c.a, v, (i + 1) as u8);
    lemma_bits(c.a & v, 0, i);
    lemma_bits(c.a & v, 0, 7);
    lemma_shifts(c.a & v);
    lemma_shifts(d.a);
    lemma_shifts(c.status.raw);
    lemma_judged_with_overflow(c.status, bit(d.a, 6), bit(d.a, 6) != bit(d.a, 5), d.a);
}

/// AXS takes the bits that the accumulator and X share, subtracts the operand, and puts the result
/// in X. The carry tells that it did not have to borrow.
#[verifier::rlimit(40)]
pub proof fn law_axs_subtracts(c: CpuModel, mode: AddrMode, addr: u16, shared: u8)
    requires
        mode != AddrMode::Implied,
        forall|i: u8| i < 8 ==> #[trigger] bit(shared, i) == (bit(c.a, i) && bit(c.x, i)),
    ensures
        ({
            let v = c.bus.value_read(addr);
            let d = c.executing(Mnemonic::Axs, mode, addr).0;
            &&& d.x == (shared - v) % 256
            &&& d.status.tell_with(c.status, shared >= v, d.x)
            &&& d == CpuModel { x: d.x, status: d.status, bus: c.bus.after_read(addr), ..c }
        }),
{
    broadcast use {lemma_judged, lemma_judged_with_carry};

    reveal(CpuModel::executing);
    reveal(CpuModel::value_applied);
    reveal(CpuModel::masked);
    lemma_shared(shared, c.a, c.x);
    lemma_shifts(c.executing(Mnemonic::Axs, mode, addr).0.x);
}

/// A byte is known by its bits.
#[verifier::rlimit(40)]
proof fn lemma_shared(shared: u8, a: u8, b: u8)
    requires
        forall|i: u8| i < 8 ==> #[trigger] bit(shared, i) == (bit(a, i) && bit(b, i)),
    ensures
        shared == a & b,
{
    let m = shared ^ (a & b);
    assert forall|i: u8| i < 8 implies !(#[trigger] bit(m, i)) by {
        lemma_bits(shared, a & b, i);
        lemma_bits(a, b, i);
        assert(bit(shared, i) == (bit(a, i) && bit(b, i)));
    }
    assert(!bit(m, 0) && !bit(m, 1) && !bit(m, 2) && !bit(m, 3) && !bit(m, 4) && !bit(m, 5)
        && !bit(m, 6) && !bit(m, 7));
    lemma_shifts(m);
    lemma_bits(shared, a & b, 0);
}

/// NOP with an operand only reads it, and without one does nothing.
pub proof fn law_nop_does_nothing(c: CpuModel, mode: AddrMode, addr: u16)
    ensures
        ({
            let d = c.executing(Mnemonic::Nop, mode, addr).0;
            d == if mode == AddrMode::Implied { c } else { c.on(c.bus.after_read(addr)) }
        }),
{
    reveal(CpuModel::executing);
    reveal(CpuModel::value_applied);
}

/// Transfers copy one register to another, increments and decrements count modulo 256, and the
/// flags tell of the result, except that TXS changes none. No memory is touched.
#[verifier::rlimit(40)]
pub proof fn law_registers_move(c: CpuModel, mnemonic: Mnemonic, mode: AddrMode, addr: u16)
    requires
        mnemonic == Mnemonic::Tax || mnemonic == Mnemonic::Tay || mnemonic == Mnemonic::Txa
            || mnemonic == Mnemonic::Tya || mnemonic == Mnemonic::Tsx || mnemonic == Mnemonic::Txs
            || mnemonic == Mnemonic::Inx || mnemonic == Mnemonic::Iny || mnemonic == Mnemonic::Dex
            || mnemonic == Mnemonic::Dey,
    ensures
        ({
            let d = c.executing(mnemonic, mode, addr).0;
            let result: int = match mnemonic {
                Mnemonic::Tax | Mnemonic::Tay => c.a as int,
                Mnemonic::Txa | Mnemonic::Txs => c.x as int,
                Mnemonic::Tya => c.y as int,
                Mnemonic::Tsx => c.sp as int,
                Mnemonic::Inx => if c.x == 255 { 0 } else { c.x + 1 },
                Mnemonic::Iny => if c.y == 255 { 0 } else { c.y + 1 },
                Mnemonic::Dex => if c.x == 0 { 255 } else { c.x - 1 },
                _ => if c.y == 0 { 255 } else { c.y - 1 },
            };
            let to_a = mnemonic == Mnemonic::Txa || mnemonic == Mnemonic::Tya;
            let to_y = mnemonic == Mnemonic::Tay || mnemonic == Mnemonic::Iny || mnemonic
                == Mnemonic::Dey;
            let to_sp = mnemonic == Mnemonic::Txs;
            &&& d.a == if to_a { result } else { c.a as int }
            &&& d.y == if to_y { result } else { c.y as int }
            &&& d.sp == if to_sp { result } else { c.sp as int }
            &&& d.x == if to_a || to_y || to_sp { c.x as int } else { result }
            &&& if to_sp { d.status == c.status } else { d.status.tell(c.status, result as u8) }
            &&& d == CpuModel { a: d.a, x: d.x, y: d.y, sp: d.sp, status: d.status, ..c }
        }),
{
    broadcast use {lemma_judged, lemma_judged_with_carry};

    reveal(CpuModel::executing);
    reveal(CpuModel::registers_moved);
    lemma_shifts(c.a);
    lemma_shifts(c.x);
    lemma_shifts(c.y);
    lemma_shifts(c.sp);
    lemma_shifts(c.x.wrapping_add(1));
    lemma_shifts(c.y.wrapping_add(1));
    lemma_shifts(c.x.wrapping_sub(1));
    lemma_shifts(c.y.wrapping_sub(1));
}

/// CLC, SEC, CLI, SEI, CLV, CLD and SED set or clear their flag and leave all else. JAM stops the
/// CPU.
pub proof fn law_flags_are_set_and_cleared(
    c: CpuModel,
    mnemonic: Mnemonic,
    mode: AddrMode,
    addr: u16,
    i: u8,
)
    requires
        mnemonic == Mnemonic::Clc || mnemonic == Mnemonic::Sec || mnemonic == Mnemonic::Cli
            || mnemonic == Mnemonic::Sei || mnemonic == Mnemonic::Clv || mnemonic == Mnemonic::Cld
            || mnemonic == Mnemonic::Sed || mnemonic == Mnemonic::Jam,
        i < 8,
    ensures
        ({
            let d = c.executing(mnemonic, mode, addr).0;
            let which = match mnemonic {
                Mnemonic::Clc | Mnemonic::Sec => 0int,
                Mnemonic::Cli | Mnemonic::Sei => 2,
                Mnemonic::Cld | Mnemonic::Sed => 3,
                Mnemonic::Clv => 6,
                _ => 8,
            };
            let on = mnemonic == Mnemonic::Sec || mnemonic == Mnemonic::Sei || mnemonic
                == Mnemonic::Sed;
            &&& d.status.flag(i) == if i == which { on } else { c.status.flag(i) }
            &&& d.jammed == (mnemonic == Mnemonic::Jam || c.jammed)
            &&& d == CpuModel { status: d.status, jammed: d.jammed, ..c }
        }),
{
    broadcast use lemma_flag_set;

    reveal(CpuModel::executing);
    reveal(CpuModel::registers_moved);
}

/// STA, STX and STY write their register, SAX the bits that the accumulator and X share. No
/// register and no flag changes.
pub proof fn law_stores_store(c: CpuModel, mnemonic: Mnemonic, mode: AddrMode, addr: u16, value: u8)
    requires
        mnemonic == Mnemonic::Sta ==> value == c.a,
        mnemonic == Mnemonic::Stx ==> value == c.x,
        mnemonic == Mnemonic::Sty ==> value == c.y,
        mnemonic == Mnemonic::Sax ==> forall|i: u8|
            i < 8 ==> #[trigger] bit(value, i) == (bit(c.a, i) && bit(c.x, i)),
        mnemonic == Mnemonic::Sta || mnemonic == Mnemonic::Stx || mnemonic == Mnemonic::Sty
            || mnemonic == Mnemonic::Sax,
    ensures
        c.executing(mnemonic, mode, addr).0 == c.on(c.bus.written(addr, value, false)),
{
    reveal(CpuModel::executing);
    if mnemonic == Mnemonic::Sax {
        lemma_shared(value, c.a, c.x);
    }
}

/// SHY and SHX write their register, masked with one more than the page of the address before the
/// index was added. If the index left that page, the value also replaces the page of the address.
#[verifier::rlimit(40)]
pub proof fn law_masked_stores_store(
    c: CpuModel,
    mnemonic: Mnemonic,
    mode: AddrMode,
    base: u16,
    addr: u16,
    value: u8,
)
    requires
        mnemonic == Mnemonic::Shy || mnemonic == Mnemonic::Shx,
        ({
            let index = if mnemonic == Mnemonic::Shy { c.x } else { c.y };
            let reg = if mnemonic == Mnemonic::Shy { c.y } else { c.x };
            &&& addr == (base + index) % 0x1_0000
            &&& forall|i: u8|
                i < 8 ==> #[trigger] bit(value, i) == (bit(reg, i) && bit(
                    ((base / 256 + 1) % 256) as u8,
                    i,
                ))
        }),
    ensures
        ({
            let index = if mnemonic == Mnemonic::Shy { c.x } else { c.y };
            let target = if base % 256 + index > 255 {
                (value * 256 + addr % 256) as u16
            } else {
                addr
            };
            c.executing(mnemonic, mode, addr).0 == c.on(c.bus.written(target, value, false))
        }),
{
    reveal(CpuModel::executing);
    let index = if mnemonic == Mnemonic::Shy { c.x } else { c.y };
    let reg = if mnemonic == Mnemonic::Shy { c.y } else { c.x };
    assert(addr.wrapping_sub(index as u16) == base);
    lemma_shared(value, reg, ((base / 256 + 1) % 256) as u8);
}

/// What a shift, increment or decrement makes of `v`, in numbers: `out` and the carry after it.
pub open spec fn changes_to(mnemonic: Mnemonic, v: u8, carry: int, out: u8, after: int) -> bool {
    match mnemonic {
        Mnemonic::Inc | Mnemonic::Isb => out == (v + 1) % 256 && after == carry,
        Mnemonic::Dec | Mnemonic::Dcp => out == (v - 1) % 256 && after == carry,
        Mnemonic::Asl | Mnemonic::Slo => out + 256 * after == 2 * v,
        Mnemonic::Lsr | Mnemonic::Sre => 2 * out + after == v,
        Mnemonic::Rol | Mnemonic::Rla => out + 256 * after == 2 * v + carry,
        _ => 2 * out + after == v + 256 * carry,
    }
}

/// An instruction that changes a value.
pub open spec fn changes(mnemonic: Mnemonic) -> bool {
    mnemonic == Mnemonic::Inc || mnemonic == Mnemonic::Dec || mnemonic == Mnemonic::Asl || mnemonic
        == Mnemonic::Lsr || mnemonic == Mnemonic::Rol || mnemonic == Mnemonic::Ror
}

/// An undocumented instruction that changes a value and goes on with it.
pub open spec fn changes_and_combines(mnemonic: Mnemonic) -> bool {
    mnemonic == Mnemonic::Isb || mnemonic == Mnemonic::Dcp || mnemonic == Mnemonic::Slo || mnemonic
        == Mnemonic::Sre || mnemonic == Mnemonic::Rla || mnemonic == Mnemonic::Rra
}

#[verifier::rlimit(40)]
proof fn lemma_changed_value(mnemonic: Mnemonic, v: u8, c: CpuModel)
    requires
        changes(mnemonic) || changes_and_combines(mnemonic),
    ensures
        ({
            let after = match mnemonic {
                Mnemonic::Inc | Mnemonic::Isb | Mnemonic::Dec | Mnemonic::Dcp => c.c(),
                Mnemonic::Asl
                | Mnemonic::Slo
                | Mnemonic::Rol
                | Mnemonic::Rla => one_if(v & 0x80 != 0),
                _ => one_if(v & 0x01 != 0),
            };
            changes_to(mnemonic, v, c.c(), c.changed(mnemonic, v), after)
        }),
{
    lemma_shifts(v);
    lemma_shifts(c.status.raw);
    assert(c.carry() == c.status.flag(0));
}

proof fn lemma_changed(c: CpuModel, mnemonic: Mnemonic, v: u8)
    requires
        changes(mnemonic) || changes_and_combines(mnemonic),
    ensures
        ({
            let out = c.changed(mnemonic, v);
            let d = c.change_judged(mnemonic, v);
            &&& changes_to(mnemonic, v, c.c(), out, d.c())
            &&& d.status.tell_with(c.status, d.status.flag(0), out)
            &&& d == CpuModel { status: d.status, ..c }
        }),
{
    lemma_changed_value(mnemonic, v, c);
    let out = c.changed(mnemonic, v);
    lemma_judged(c.status, out);
    lemma_judged_with_carry(c.status, v & 0x80 != 0, out);
    lemma_judged_with_carry(c.status, v & 0x01 != 0, out);
}

/// INC and DEC count modulo 256. ASL and LSR double and halve, ROL and ROR do so with the carry
/// coming in, and what falls out goes to the carry. The accumulator, or the byte at the address,
/// takes the result; the byte is first written back as it was. The flags tell of the result.
pub proof fn law_changes_change(
    c: CpuModel,
    mnemonic: Mnemonic,
    mode: AddrMode,
    addr: u16,
    out: u8,
    carry: bool,
)
    requires
        changes(mnemonic),
        ({
            let v = if mode == AddrMode::Accumulator { c.a } else { c.bus.value_read(addr) };
            changes_to(mnemonic, v, c.c(), out, one_if(carry))
        }),
    ensures
        ({
            let v = c.bus.value_read(addr);
            let d = c.executing(mnemonic, mode, addr).0;
            &&& d.status.tell_with(c.status, carry, out)
            &&& d == if mode == AddrMode::Accumulator {
                CpuModel { a: out, status: d.status, ..c }
            } else {
                CpuModel {
                    status: d.status,
                    bus: c.bus.after_read(addr).written(addr, v, false).written(addr, out, true),
                    ..c
                }
            }
        }),
{
    reveal(CpuModel::executing);
    reveal(CpuModel::modified);
    let (e, v) = if mode == AddrMode::Accumulator { (c, c.a) } else { c.reading(addr) };
    lemma_changed(e, mnemonic, v);
    let f = e.change_judged(mnemonic, v);
    lemma_one_change(mnemonic, v, c.c(), out, carry, e.changed(mnemonic, v), f.status.flag(0));
}

/// SLO, RLA, SRE, RRA, DCP and ISB change the byte at the address as ASL, ROL, LSR, ROR, DEC and INC
/// do, and then combine the accumulator with it as ORA, AND, EOR, ADC, CMP and SBC do.
#[verifier::rlimit(40)]
pub proof fn law_changes_combine(
    c: CpuModel,
    mnemonic: Mnemonic,
    mode: AddrMode,
    addr: u16,
    out: u8,
    carry: bool,
    i: u8,
)
    requires
        changes_and_combines(mnemonic),
        mode != AddrMode::Accumulator,
        changes_to(mnemonic, c.bus.value_read(addr), c.c(), out, one_if(carry)),
        i < 8,
    ensures
        ({
            let v = c.bus.value_read(addr);
            let d = c.executing(mnemonic, mode, addr).0;
            let k = one_if(carry);
            let sum = signed(c.a) + signed(out) + k;
            let difference = signed(c.a) - signed(out) - (1 - k);
            &&& d == CpuModel {
                a: d.a,
                status: d.status,
                bus: c.bus.after_read(addr).written(addr, v, false).written(addr, out, true),
                ..c
            }
            &&& mnemonic == Mnemonic::Slo ==> bit(d.a, i) == (bit(c.a, i) || bit(out, i))
            &&& mnemonic == Mnemonic::Rla ==> bit(d.a, i) == (bit(c.a, i) && bit(out, i))
            &&& mnemonic == Mnemonic::Sre ==> bit(d.a, i) == (bit(c.a, i) != bit(out, i))
            &&& mnemonic == Mnemonic::Slo || mnemonic == Mnemonic::Rla || mnemonic == Mnemonic::Sre
                ==> d.status.tell_with(c.status, carry, d.a)
            &&& mnemonic == Mnemonic::Rra ==> d.a + 256 * d.c() == c.a + out + k && d.status.are(
                c.status,
                c.a + out + k > 255,
                d.a == 0,
                sum < -128 || sum > 127,
                d.a >= 128,
            )
            &&& mnemonic == Mnemonic::Isb ==> d.a - 256 * (1 - d.c()) == c.a - out - (1 - k)
                && d.status.are(
                c.status,
                c.a - out - (1 - k) >= 0,
                d.a == 0,
                difference < -128 || difference > 127,
                d.a >= 128,
            )
            &&& mnemonic == Mnemonic::Dcp ==> d.a == c.a && d.status.are(
                c.status,
                c.a >= out,
                c.a == out,
                c.status.flag(6),
                (c.a - out) % 256 >= 128,
            )
        }),
{
    broadcast use {lemma_judged, lemma_judged_with_carry};

    reveal(CpuModel::executing);
    reveal(CpuModel::modified);
    let v = c.bus.value_read(addr);
    let e = c.reading(addr).0;
    lemma_changed(e, mnemonic, v);
    let f = e.change_judged(mnemonic, v);
    lemma_one_change(mnemonic, v, c.c(), out, carry, e.changed(mnemonic, v), f.status.flag(0));
    let g = f.on(f.bus.rewritten(addr, v, out));
    let d = c.executing(mnemonic, mode, addr).0;
    lemma_bits(c.a, out, i);
    lemma_shifts(d.a);
    lemma_shifts(out);
    lemma_added(g, out);
    lemma_added(g, out ^ 0xFF);
    lemma_compared(g, c.a, out);
}

/// A value changes to one other, and one carry.
proof fn lemma_one_change(
    mnemonic: Mnemonic,
    v: u8,
    before: int,
    out: u8,
    carry: bool,
    other: u8,
    other_carry: bool,
)
    requires
        0 <= before <= 1,
        changes_to(mnemonic, v, before, out, one_if(carry)),
        changes_to(mnemonic, v, before, other, one_if(other_carry)),
    ensures
        out == other,
        carry == other_carry,
{
}

/// The branches look at one flag each: carry, zero, negative or overflow, for being set or clear. A
/// branch that is taken continues at its target and costs a cycle, or two if the target is on
/// another page. Nothing else changes.
#[verifier::rlimit(40)]
pub proof fn law_branches_follow_a_flag(c: CpuModel, mnemonic: Mnemonic, mode: AddrMode, addr: u16)
    requires
        mnemonic == Mnemonic::Bcc || mnemonic == Mnemonic::Bcs || mnemonic == Mnemonic::Beq
            || mnemonic == Mnemonic::Bne || mnemonic == Mnemonic::Bmi || mnemonic == Mnemonic::Bpl
            || mnemonic == Mnemonic::Bvc || mnemonic == Mnemonic::Bvs,
    ensures
        ({
            let taken = match mnemonic {
                Mnemonic::Bcc => !c.status.flag(0),
                Mnemonic::Bcs => c.status.flag(0),
                Mnemonic::Bne => !c.status.flag(1),
                Mnemonic::Beq => c.status.flag(1),
                Mnemonic::Bpl => !c.status.flag(7),
                Mnemonic::Bmi => c.status.flag(7),
                Mnemonic::Bvc => !c.status.flag(6),
                _ => c.status.flag(6),
            };
            let (d, extra) = c.executing(mnemonic, mode, addr);
            &&& d == if taken { CpuModel { pc: addr, ..c } } else { c }
            &&& extra == if !taken {
                0int
            } else if addr as int / 256 == c.pc as int / 256 {
                1
            } else {
                2
            }
        }),
{
    reveal(CpuModel::executing);
    lemma_shifts(c.status.raw);
}

} // verus!

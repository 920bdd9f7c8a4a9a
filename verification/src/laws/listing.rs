//! Numbers and instructions as text.

use vstd::prelude::*;

use super::words::signed;
use crate::cpu::opcodes::{decoded, AddrMode, Mnemonic, OpcodeInfo};
use crate::cpu::{displaced, next_in_page, word, CpuModel};
use crate::text::{dec, digit_char, hex, left_aligned, low_digit_char, low_hex, right_aligned};

verus! {

/// What a digit stands for, by its place in the alphabet; letters in upper or lower case.
pub open spec fn digit_value(c: char) -> int {
    if c as u32 >= 97 {
        c as u32 - 87
    } else if c as u32 >= 65 {
        c as u32 - 55
    } else {
        c as u32 - 48
    }
}

/// The number that digits stand for.
pub open spec fn number_in(digits: Seq<char>, base: int) -> int
    decreases digits.len(),
{
    if digits.len() == 0 {
        0
    } else {
        number_in(digits.drop_last(), base) * base + digit_value(digits.last())
    }
}

/// How many numbers `width` hexadecimal digits can write.
pub open spec fn reach(width: nat) -> int
    decreases width,
{
    if width == 0 { 1 } else { reach((width - 1) as nat) * 16 }
}

proof fn lemma_digit(d: nat)
    requires
        d < 16,
    ensures
        digit_value(digit_char(d)) == d,
        digit_value(low_digit_char(d)) == d,
{
}

/// A number in hexadecimal has as many digits as are asked for, and reads back if it fits.
#[verifier::rlimit(40)]
pub proof fn law_hexadecimal_reads_back(v: nat, width: nat)
    requires
        v < reach(width),
    ensures
        hex(v, width).len() == width,
        number_in(hex(v, width), 16) == v,
        low_hex(v, width).len() == width,
        number_in(low_hex(v, width), 16) == v,
    decreases width,
{
    if width > 0 {
        let less = (width - 1) as nat;
        assert(v / 16 < reach(less)) by (nonlinear_arith)
            requires
                v < reach(less) * 16,
        ;
        law_hexadecimal_reads_back(v / 16, less);
        lemma_digit(v % 16);
        assert(hex(v, width).drop_last() =~= hex(v / 16, less));
        assert(low_hex(v, width).drop_last() =~= low_hex(v / 16, less));
    }
}

/// A number in decimal reads back, and has no zero in front.
#[verifier::rlimit(40)]
pub proof fn law_decimal_reads_back(v: nat)
    ensures
        number_in(dec(v), 10) == v,
        dec(v).len() > 0,
        dec(v).len() > 1 ==> dec(v)[0] != '0',
        v > 0 ==> dec(v)[0] != '0',
    decreases v,
{
    lemma_digit(v % 10);
    if v < 10 {
        assert(dec(v).drop_last() =~= Seq::<char>::empty());
        assert(v % 10 == v);
        reveal_with_fuel(number_in, 2);
    } else {
        law_decimal_reads_back(v / 10);
        assert(dec(v).drop_last() =~= dec(v / 10));
    }
}

/// Aligned text is at least as wide as is asked for, begins or ends with the text, and is otherwise
/// blank.
pub proof fn law_aligned_text_keeps_the_text(s: Seq<char>, width: nat)
    ensures
        ({
            let left = left_aligned(s, width);
            let right = right_aligned(s, width);
            let wide = if s.len() < width { width } else { s.len() };
            &&& left.len() == wide
            &&& right.len() == wide
            &&& left.subrange(0, s.len() as int) == s
            &&& right.subrange(wide - s.len(), wide as int) == s
            &&& forall|i: int| s.len() <= i < wide ==> left[i] == ' '
            &&& forall|i: int| 0 <= i < wide - s.len() ==> right[i] == ' '
        }),
{
    let left = left_aligned(s, width);
    let right = right_aligned(s, width);
    let wide = if s.len() < width { width } else { s.len() };
    assert(left.subrange(0, s.len() as int) =~= s);
    assert(right.subrange(wide - s.len(), wide as int) =~= s);
}

impl CpuModel {
    /// The byte at an address as it is listed: nothing is known of the registers of the APU.
    pub open spec fn listed(self, addr: int) -> nat {
        if 0x4000 <= addr <= 0x4015 { 255 } else { self.bus.peeked(addr as u16) as nat }
    }

    /// The byte `n` places behind the program counter.
    pub open spec fn behind(self, n: int) -> u8 {
        self.bus.peeked(((self.pc + n) % 0x1_0000) as u16)
    }

    /// The two bytes of the zero page at `at`, as an address.
    pub open spec fn pointer_at(self, at: int) -> int {
        self.bus.peeked((at % 256) as u16) + 256 * self.bus.peeked(((at + 1) % 256) as u16)
    }
}

#[verifier::rlimit(40)]
proof fn lemma_code(c: CpuModel)
    ensures
        c.code_byte(0) == c.behind(0),
        c.code_byte(1) == c.behind(1),
        c.code_byte(2) == c.behind(2),
{
    assert(c.pc.wrapping_add(0) == (c.pc + 0) % 0x1_0000);
    assert(c.pc.wrapping_add(1) == (c.pc + 1) % 0x1_0000);
    assert(c.pc.wrapping_add(2) == (c.pc + 2) % 0x1_0000);
}

#[verifier::rlimit(40)]
proof fn lemma_byte_sum(a: u8, b: u8)
    ensures
        a.wrapping_add(b) == (a + b) % 256,
        a.wrapping_add(b).wrapping_add(1) == (a + b + 1) % 256,
{
}

#[verifier::rlimit(40)]
proof fn lemma_word_sum(a: u16, b: u8)
    ensures
        a.wrapping_add(b as u16) == (a + b) % 0x1_0000,
{
}

/// Operands of one byte are listed as they are written; in the zero page with the address that the
/// CPU makes of it, which wraps with the page, and the byte there; and a branch by its target.
#[verifier::rlimit(40)]
pub proof fn law_short_operands_are_listed(c: CpuModel, info: OpcodeInfo)
    ensures
        ({
            let text = c.operand_text(info);
            let b = c.behind(1);
            let x = (b + c.x) % 256;
            let y = (b + c.y) % 256;
            let target = (c.pc + 2 + signed(b)) % 0x1_0000;
            &&& info.mode == AddrMode::Implied ==> text.len() == 0
            &&& info.mode == AddrMode::Accumulator ==> text == "A"@
            &&& info.mode == AddrMode::Immediate ==> text == "#$"@ + hex(b as nat, 2)
            &&& info.mode == AddrMode::ZeroPage ==> text == "$"@ + hex(b as nat, 2) + " = "@ + hex(
                c.bus.peeked(b as u16) as nat,
                2,
            )
            &&& info.mode == AddrMode::ZeroPageX ==> text == "$"@ + hex(b as nat, 2) + ",X @ "@
                + hex(x as nat, 2) + " = "@ + hex(c.bus.peeked(x as u16) as nat, 2)
            &&& info.mode == AddrMode::ZeroPageY ==> text == "$"@ + hex(b as nat, 2) + ",Y @ "@
                + hex(y as nat, 2) + " = "@ + hex(c.bus.peeked(y as u16) as nat, 2)
            &&& info.mode == AddrMode::Relative && info.bytes == 2 ==> text == "$"@ + hex(
                target as nat,
                4,
            )
        }),
{
    lemma_code(c);
    let b = c.behind(1);
    lemma_byte_sum(b, c.x);
    lemma_byte_sum(b, c.y);
    lemma_branch_listed(c.pc, b);
}

/// Operands of two bytes are listed as an address, with the address that an index makes of it and
/// the byte there; jumps without.
#[verifier::rlimit(40)]
pub proof fn law_long_operands_are_listed(c: CpuModel, info: OpcodeInfo)
    ensures
        ({
            let text = c.operand_text(info);
            let w = c.behind(1) + 256 * c.behind(2);
            let x = (w + c.x) % 0x1_0000;
            let y = (w + c.y) % 0x1_0000;
            let jumps = info.mnemonic == Mnemonic::Jmp || info.mnemonic == Mnemonic::Jsr;
            &&& info.mode == AddrMode::Absolute && jumps ==> text == "$"@ + hex(w as nat, 4)
            &&& info.mode == AddrMode::Absolute && !jumps ==> text == "$"@ + hex(w as nat, 4)
                + " = "@ + hex(c.listed(w), 2)
            &&& info.mode == AddrMode::AbsoluteX ==> text == "$"@ + hex(w as nat, 4) + ",X @ "@
                + hex(x as nat, 4) + " = "@ + hex(c.listed(x), 2)
            &&& info.mode == AddrMode::AbsoluteY ==> text == "$"@ + hex(w as nat, 4) + ",Y @ "@
                + hex(y as nat, 4) + " = "@ + hex(c.listed(y), 2)
        }),
{
    lemma_code(c);
    let w = word(c.behind(1), c.behind(2));
    lemma_word_sum(w, c.x);
    lemma_word_sum(w, c.y);
}

/// Pointers are listed with what they point to: that of a jump within its page, those of the zero
/// page within that, with X added before or Y behind.
#[verifier::rlimit(40)]
pub proof fn law_pointers_are_listed(c: CpuModel, info: OpcodeInfo)
    ensures
        ({
            let text = c.operand_text(info);
            let b = c.behind(1);
            let high = c.behind(2);
            let w = b + 256 * high;
            let at = (b + c.x) % 256;
            let first = c.pointer_at(b + c.x);
            let second = c.pointer_at(b as int);
            let target = c.bus.peeked(w as u16) + 256 * c.bus.peeked(
                ((b + 1) % 256 + 256 * high) as u16,
            );
            let y = (second + c.y) % 0x1_0000;
            &&& info.mode == AddrMode::Indirect ==> text == "($"@ + hex(w as nat, 4) + ") = "@
                + hex(target as nat, 4)
            &&& info.mode == AddrMode::IndirectX ==> text == "($"@ + hex(b as nat, 2) + ",X) @ "@
                + hex(at as nat, 2) + " = "@ + hex(first as nat, 4) + " = "@ + hex(
                c.listed(first),
                2,
            )
            &&& info.mode == AddrMode::IndirectY ==> text == "($"@ + hex(b as nat, 2) + "),Y = "@
                + hex(second as nat, 4) + " @ "@ + hex(y as nat, 4) + " = "@ + hex(c.listed(y), 2)
        }),
{
    lemma_code(c);
    let b = c.behind(1);
    lemma_byte_sum(b, c.x);
    lemma_byte_sum(b, 0);
    let w = word(b, c.behind(2));
    assert(w as int % 256 == b && w - w as int % 256 == 256 * c.behind(2));
    assert(next_in_page(w) == (b + 1) % 256 + 256 * c.behind(2));
    lemma_word_sum(c.shown_pointer(b), c.y);
}

#[verifier::rlimit(40)]
proof fn lemma_branch_listed(pc: u16, b: u8)
    ensures
        displaced(pc.wrapping_add(2), b) == (pc + 2 + signed(b)) % 0x1_0000,
{
    let next = pc.wrapping_add(2);
    assert(next == (pc + 2) % 0x1_0000);
    assert(displaced(next, b) == (next + signed(b)) % 0x1_0000);
    assert(((pc + 2) % 0x1_0000 + signed(b)) % 0x1_0000 == (pc + 2 + signed(b)) % 0x1_0000);
}

/// An instruction is listed by its name, with a star in front if it is undocumented, and its operand
/// behind it if it has one.
pub proof fn law_instructions_are_listed(c: CpuModel)
    ensures
        ({
            let info = decoded(c.behind(0));
            let name = info.mnemonic.name();
            let starred = if info.official { name } else { "*"@ + name };
            c.disassembled() == if info.mode == AddrMode::Implied {
                starred
            } else {
                starred + " "@ + c.operand_text(info)
            }
        }),
{
    reveal_strlit("");
    lemma_code(c);
    let name = decoded(c.behind(0)).mnemonic.name();
    assert(""@ + name =~= name);
}

} // verus!

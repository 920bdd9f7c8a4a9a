//! Bytes as bits and as signed numbers, to say what instructions and registers mean.

use vstd::prelude::*;

use crate::cpu::flags::StatusFlags;

verus! {

/// Bit `i` of a byte is set.
pub open spec fn bit(v: u8, i: u8) -> bool {
    (v >> i) & 1 == 1
}

/// Bit `i` of a 16-bit word is set.
pub open spec fn bit16(v: u16, i: u16) -> bool {
    (v >> i) & 1 == 1
}

/// A byte as a number from -128 to 127.
pub open spec fn signed(v: u8) -> int {
    if v < 128 { v as int } else { v - 256 }
}

/// A truth value as 0 or 1.
pub open spec fn one_if(on: bool) -> int {
    if on { 1 } else { 0 }
}

impl StatusFlags {
    /// Flag `i`: 0 carry, 1 zero, 2 interrupt, 3 decimal, 4 break, 6 overflow, 7 negative.
    pub open spec fn flag(self, i: u8) -> bool {
        bit(self.raw, i)
    }

    /// Carry, zero, overflow and negative are as given, and the other four as in `before`.
    pub open spec fn are(self, before: StatusFlags, c: bool, z: bool, v: bool, n: bool) -> bool {
        &&& self.flag(0) == c
        &&& self.flag(1) == z
        &&& self.flag(2) == before.flag(2)
        &&& self.flag(3) == before.flag(3)
        &&& self.flag(4) == before.flag(4)
        &&& self.flag(5) == before.flag(5)
        &&& self.flag(6) == v
        &&& self.flag(7) == n
    }

    /// Zero and negative tell of `value`, and the other six are as in `before`.
    pub open spec fn tell(self, before: StatusFlags, value: u8) -> bool {
        self.are(before, before.flag(0), value == 0, before.flag(6), value >= 128)
    }

    /// So they do, and carry is as given.
    pub open spec fn tell_with(self, before: StatusFlags, c: bool, value: u8) -> bool {
        self.are(before, c, value == 0, before.flag(6), value >= 128)
    }
}

/// What the operators on bytes do to each bit.
pub proof fn lemma_bits(a: u8, b: u8, i: u8)
    by (bit_vector)
    requires
        i < 8,
    ensures
        (((a & b) >> i) & 1 == 1) == (((a >> i) & 1 == 1) && ((b >> i) & 1 == 1)),
        (((a | b) >> i) & 1 == 1) == (((a >> i) & 1 == 1) || ((b >> i) & 1 == 1)),
        (((a ^ b) >> i) & 1 == 1) == (((a >> i) & 1 == 1) != ((b >> i) & 1 == 1)),
        ((!a >> i) & 1 == 1) == !((a >> i) & 1 == 1),
        (a ^ b) ^ b == a,
        a ^ a == 0,
        a ^ b == 0 ==> a == b,
        (a | 0xFF) & b == b,
        (((a >> 1) >> i) & 1 == 1) == (i < 7 && (a >> ((i + 1) as u8)) & 1 == 1),
        ((((a >> 1) | 0x80) >> i) & 1 == 1) == (i == 7 || (a >> ((i + 1) as u8)) & 1 == 1),
{
}

/// Bytes shifted and inverted, as numbers.
pub proof fn lemma_shifts(v: u8)
    by (bit_vector)
    ensures
        (v << 1) + 256 * ((v >> 7) & 1) == 2 * v,
        2 * (v >> 1) + (v & 1) == v,
        (v << 1) | 1 == (v << 1) + 1,
        (v << 1) | 0 == v << 1,
        (v >> 1) | (1u8 << 7) == (v >> 1) + 128,
        (v >> 1) | (0u8 << 7) == v >> 1,
        (v >> 1) | (1u8 << 7) == (v >> 1) | 0x80,
        v ^ 0xFF == 255 - v,
        (v & 0x80 != 0) == (v >= 128),
        (v & 0x80 != 0) == ((v >> 7) & 1 == 1),
        (v >> 7) & 1 <= 1,
        (v & 0x40 != 0) == ((v >> 6) & 1 == 1),
        (v & 0x20 != 0) == ((v >> 5) & 1 == 1),
        (v & 0x10 != 0) == ((v >> 4) & 1 == 1),
        (v & 0x08 != 0) == ((v >> 3) & 1 == 1),
        (v & 0x04 != 0) == ((v >> 2) & 1 == 1),
        (v & 0x02 != 0) == ((v >> 1) & 1 == 1),
        (v & 0x01 != 0) == ((v >> 0) & 1 == 1),
        v & 1 <= 1,
        (v & 0x01 == 0x01) == ((v >> 0) & 1 == 1),
        (v & 0x02 == 0x02) == ((v >> 1) & 1 == 1),
        (v & 0x04 == 0x04) == ((v >> 2) & 1 == 1),
        (v & 0x40 == 0x40) == ((v >> 6) & 1 == 1),
        (v & 0x80 == 0x80) == ((v >> 7) & 1 == 1),
        (((v >> 6) & 1) ^ ((v >> 5) & 1) == 1) == (((v >> 6) & 1 == 1) != ((v >> 5) & 1 == 1)),
        (v >= 128) == ((v >> 7) & 1 == 1),
        (v == 0) == !((v >> 0) & 1 == 1 || (v >> 1) & 1 == 1 || (v >> 2) & 1 == 1 || (v >> 3) & 1
            == 1 || (v >> 4) & 1 == 1 || (v >> 5) & 1 == 1 || (v >> 6) & 1 == 1 || (v >> 7) & 1
            == 1),
{
}

/// The fields of a byte, as numbers.
pub proof fn lemma_fields(v: u8)
    by (bit_vector)
    ensures
        v >> 6 == v / 64,
        v >> 5 == v / 32,
        v >> 3 == v / 8,
        v >> 2 == v / 4,
        v >> 1 == v / 2,
        (v >> 4) & 7 == v / 16 % 8,
        (v >> 2) & 3 == v / 4 % 4,
        v & 127 == v % 128,
        v & 63 == v % 64,
        v & 31 == v % 32,
        v & 15 == v % 16,
        v & 7 == v % 8,
        v & 3 == v % 4,
        v & 1 == v % 2,
        v & 0xFE == v - v % 2,
        v & 0x1E == v % 32 - v % 2,
        v & 0x30 == 16 * (v / 16 % 4),
        v & 0xE0 == 32 * (v / 32),
        v & 0xC0 == 64 * (v / 64),
        (v & 0x01 == 0) == (v % 2 == 0),
        (v & 0x02 == 0) == (v / 2 % 2 == 0),
        (v & 0x04 == 0) == (v / 4 % 2 == 0),
        (v & 0x10 == 0) == (v / 16 % 2 == 0),
        (v & 0x80 == 0) == (v < 128),
        (v >> 0) & 1 == v % 2,
        (v & 0x18 != 0) == ((v >> 3) & 1 == 1 || (v >> 4) & 1 == 1),
        (v | 0x0C) % 4 == v % 4,
        (v | 0x0C) / 4 % 4 == 3,
        (v | 0x0C) / 16 == v / 16,
        v & !0x80 == v % 128,
        v & !0xE0 == v % 32,
        v & 0xE3 == v - 4 * (v / 4 % 8),
        (v | 0x80) % 128 == v % 128,
        v | 0x80 >= 128,
        (0x24u8 >> 2) & 1 == 1,
        (0x24u8 >> 0) & 1 == 0,
        (0x24u8 >> 1) & 1 == 0,
        (0x24u8 >> 3) & 1 == 0,
{
}

/// Fields of two bytes put together, as numbers.
pub proof fn lemma_joined(a: u8, b: u8)
    by (bit_vector)
    ensures
        (a & 63) | (b & 0xC0) == a % 64 + 64 * (b / 64),
        ((a & 63) & 0x30) | (b & 0xC0) == 16 * (a / 16 % 4) + 64 * (b / 64),
        (a & 0xE0) | (b & 31) == 32 * (a / 32) + b % 32,
        (b & 31) | (((a & 0xE0) | (b & 31)) & 0xE0) == 32 * (a / 32) + b % 32,
        a & 63 == a % 64,
        (a & 63) & 0x30 == 16 * (a / 16 % 4),
        (a & 63) & 63 == a % 64,
        ((a & 63) & 63) & 0x30 == 16 * (a / 16 % 4),
        (a & 0xF0) | (b >> 4) == 16 * (a / 16) + b / 16,
        (a & 0x0C == 0x08) == ((a >> 3) & 1 == 1 && !((a >> 2) & 1 == 1)),
{
}

/// The fields of a word, as numbers.
pub proof fn lemma_word_fields(v: u16)
    by (bit_vector)
    ensures
        v & 3 == v % 4,
        v & 7 == v % 8,
        v & 0x1F == v % 32,
        v & 0x07FF == v % 0x800,
        v & 0x0FFF == v % 0x1000,
        v & 0x1FFF == v % 0x2000,
        v & 0x3FFF == v % 0x4000,
        v & 0x7FFF == v % 0x8000,
        v & 0x2FFF == v % 0x1000 + 0x2000 * (v / 0x2000 % 2),
        (v >> 13) & 3 == v / 0x2000 % 4,
{
}

proof fn lemma_mask_set(s: u8, f: u8, i: u8)
    by (bit_vector)
    requires
        i < 8,
    ensures
        f == 0x01 ==> ((s | f) >> i) & 1 == (if i == 0 { 1 } else { (s >> i) & 1 }),
        f == 0x01 ==> ((s & !f) >> i) & 1 == (if i == 0 { 0 } else { (s >> i) & 1 }),
        f == 0x02 ==> ((s | f) >> i) & 1 == (if i == 1 { 1 } else { (s >> i) & 1 }),
        f == 0x02 ==> ((s & !f) >> i) & 1 == (if i == 1 { 0 } else { (s >> i) & 1 }),
        f == 0x04 ==> ((s | f) >> i) & 1 == (if i == 2 { 1 } else { (s >> i) & 1 }),
        f == 0x04 ==> ((s & !f) >> i) & 1 == (if i == 2 { 0 } else { (s >> i) & 1 }),
        f == 0x08 ==> ((s | f) >> i) & 1 == (if i == 3 { 1 } else { (s >> i) & 1 }),
        f == 0x08 ==> ((s & !f) >> i) & 1 == (if i == 3 { 0 } else { (s >> i) & 1 }),
        f == 0x10 ==> ((s | f) >> i) & 1 == (if i == 4 { 1 } else { (s >> i) & 1 }),
        f == 0x10 ==> ((s & !f) >> i) & 1 == (if i == 4 { 0 } else { (s >> i) & 1 }),
        f == 0x20 ==> ((s | f) >> i) & 1 == (if i == 5 { 1 } else { (s >> i) & 1 }),
        f == 0x20 ==> ((s & !f) >> i) & 1 == (if i == 5 { 0 } else { (s >> i) & 1 }),
        f == 0x40 ==> ((s | f) >> i) & 1 == (if i == 6 { 1 } else { (s >> i) & 1 }),
        f == 0x40 ==> ((s & !f) >> i) & 1 == (if i == 6 { 0 } else { (s >> i) & 1 }),
        f == 0x80 ==> ((s | f) >> i) & 1 == (if i == 7 { 1 } else { (s >> i) & 1 }),
        f == 0x80 ==> ((s & !f) >> i) & 1 == (if i == 7 { 0 } else { (s >> i) & 1 }),
{
}

/// A mask of one flag changes that flag alone.
pub broadcast proof fn lemma_flag_set(s: StatusFlags, f: u8, on: bool, i: u8)
    requires
        i < 8,
    ensures
        f == 0x01 ==> #[trigger] s.with(f, on).flag(i) == if i == 0 { on } else { s.flag(i) },
        f == 0x02 ==> s.with(f, on).flag(i) == if i == 1 { on } else { s.flag(i) },
        f == 0x04 ==> s.with(f, on).flag(i) == if i == 2 { on } else { s.flag(i) },
        f == 0x08 ==> s.with(f, on).flag(i) == if i == 3 { on } else { s.flag(i) },
        f == 0x10 ==> s.with(f, on).flag(i) == if i == 4 { on } else { s.flag(i) },
        f == 0x20 ==> s.with(f, on).flag(i) == if i == 5 { on } else { s.flag(i) },
        f == 0x40 ==> s.with(f, on).flag(i) == if i == 6 { on } else { s.flag(i) },
        f == 0x80 ==> s.with(f, on).flag(i) == if i == 7 { on } else { s.flag(i) },
{
    lemma_mask_set(s.raw, f, i);
}

/// Zero and negative are judged alone.
pub broadcast proof fn lemma_judged(s: StatusFlags, value: u8)
    ensures
        (#[trigger] s.judged(value)).tell(s, value),
{
    broadcast use lemma_flag_set;

    lemma_shifts(value);
}

/// They are judged with the carry.
pub broadcast proof fn lemma_judged_with_carry(s: StatusFlags, carry: bool, value: u8)
    ensures
        (#[trigger] s.judged_with_carry(carry, value)).tell_with(s, carry, value),
{
    broadcast use lemma_flag_set;

    lemma_shifts(value);
}

/// Carry and overflow are set, and the value is judged, before or after them.
pub proof fn lemma_judged_with_overflow(s: StatusFlags, carry: bool, overflow: bool, value: u8)
    ensures
        s.with(0x01, carry).with(0x40, overflow).judged(value).are(
            s,
            carry,
            value == 0,
            overflow,
            value >= 128,
        ),
        s.judged(value).with(0x01, carry).with(0x40, overflow).are(
            s,
            carry,
            value == 0,
            overflow,
            value >= 128,
        ),
{
    broadcast use lemma_flag_set;

    lemma_shifts(value);
}

/// Setting or clearing a flag changes that flag alone; and a flag is set if the register has it.
pub proof fn law_flags_are_apart(s: StatusFlags, k: u8, f: u8, on: bool, i: u8)
    requires
        k < 8,
        i < 8,
        f == (if k == 0 { 1int } else if k == 1 { 2 } else if k == 2 { 4 } else if k == 3 { 8 }
            else if k == 4 { 16 } else if k == 5 { 32 } else if k == 6 { 64 } else { 128 }),
    ensures
        s.with(f, on).flag(i) == if i == k { on } else { s.flag(i) },
        k != 3 && k != 4 && k != 5 ==> s.has(f) == s.flag(k),
{
    lemma_flag_set(s, f, on, i);
    lemma_shifts(s.raw);
}

} // verus!

//! Which bytes of a cartridge the windows of its mapper show.

use vstd::arithmetic::div_mod::{
    lemma_fundamental_div_mod_converse, lemma_small_mod,
};
use vstd::prelude::*;

use super::words::{bit, lemma_fields, lemma_shifts, lemma_word_fields};
use crate::cartridge::mapper::{bank16_byte, bank_count, Cnrom, Mapper, Mmc1, Uxrom};
use crate::cartridge::{CartModel, Mirroring};

verus! {

/// Under MMC1 a 4 KB window shows one whole 4 KB bank of pattern memory, byte after byte: the first
/// address of a window is 4096 times its bank, and the next address is the next byte. The two
/// windows show banks of their own, or together an even bank and the next in 8 KB mode.
#[verifier::rlimit(40)]
pub proof fn law_mmc1_windows_show_whole_banks(m: Mmc1, addr: int)
    requires
        m.valid(),
        0 <= addr < 0x2000,
    ensures
        addr + 1 < 0x2000 && addr % 0x1000 != 0xFFF ==> m.chr_position(addr + 1) == m.chr_position(
            addr,
        ) + 1,
        m.chr_position(0) == 0x1000 * if bit(m.control, 4) {
            m.chr0 as int
        } else {
            m.chr0 - m.chr0 as int % 2
        },
        m.chr_position(0x1000) == 0x1000 * if bit(m.control, 4) {
            m.chr1 as int
        } else {
            m.chr0 - m.chr0 as int % 2 + 1
        },
        m.chr_position(addr) == m.chr_position(addr - addr % 0x1000) + addr % 0x1000,
        !bit(m.control, 4) ==> m.chr_position(addr) == m.chr_position(0) + addr,
{
    lemma_fields(m.chr0);
    lemma_shifts(m.control);
}

/// In 8 KB mode with bank 0, MMC1 with 8 KB of pattern memory shows it as it is.
pub proof fn law_mmc1_shows_a_single_bank_as_it_is(m: Mmc1, chr: Seq<u8>, addr: u16)
    requires
        m.valid(),
        !bit(m.control, 4),
        m.chr0 < 2,
        chr.len() == 0x2000,
        addr < 0x2000,
    ensures
        Mapper::Mmc1(m).chr_byte(chr, addr) == chr[addr as int],
{
    law_mmc1_windows_show_whole_banks(m, addr as int);
    lemma_word_fields(addr);
}

/// The byte of a memory at a place, which repeats as often as it is needed.
pub open spec fn repeated(memory: Seq<u8>, place: int) -> u8 {
    memory[place % memory.len() as int]
}

/// Pattern memory is read at the place that the mapper tells, which repeats with the memory's size;
/// addresses repeat every 8 KB. NROM and UxROM show it as it is, CNROM the 8 KB bank that it was
/// told.
#[verifier::rlimit(40)]
pub proof fn law_patterns_come_from_their_bank(m: Mapper, chr: Seq<u8>, addr: u16)
    requires
        m.valid(),
        chr.len() > 0,
    ensures
        ({
            let a = addr as int % 0x2000;
            m.chr_byte(chr, addr) == repeated(
                chr,
                match m {
                    Mapper::Nrom(_) => a,
                    Mapper::Mmc1(c) => c.chr_position(a),
                    Mapper::Uxrom(_) => a,
                    Mapper::Cnrom(c) => 0x2000 * c.chr_bank + a,
                },
            )
        }),
        m.chr_byte(Seq::empty(), addr) == 0,
{
    lemma_word_fields(addr);
}

/// MMC1 takes a register bit by bit, lowest first: five writes load the bits 0 of their values, in
/// that order, into the register that the address of the last selects. Each of `$8000`, `$A000`,
/// `$C000` and `$E000` has a register of its own.
#[verifier::rlimit(40)]
pub proof fn law_mmc1_loads_serially(m: Mmc1, addrs: Seq<u16>, values: Seq<u8>)
    requires
        m.valid(),
        m.shift_count == 0,
        addrs.len() == 5,
        values.len() == 5,
        forall|i: int| 0 <= i < 5 ==> #[trigger] values[i] < 128,
        addrs[4] >= 0x8000,
    ensures
        ({
            let d = m.written(addrs[0], values[0], false).written(
                addrs[1],
                values[1],
                false,
            ).written(addrs[2], values[2], false).written(addrs[3], values[3], false).written(
                addrs[4],
                values[4],
                false,
            );
            let loaded = (values[0] % 2 + 2 * (values[1] % 2) + 4 * (values[2] % 2) + 8 * (values[3]
                % 2) + 16 * (values[4] % 2)) as u8;
            let clean = Mmc1 { shift: 0, shift_count: 0, ..m };
            d == if addrs[4] < 0xA000 {
                Mmc1 { control: loaded, ..clean }
            } else if addrs[4] < 0xC000 {
                Mmc1 { chr0: loaded, ..clean }
            } else if addrs[4] < 0xE000 {
                Mmc1 { chr1: loaded, ..clean }
            } else {
                Mmc1 { prg: loaded, ..clean }
            }
        }),
{
    lemma_serial(m.shift, values[0], values[1], values[2], values[3], values[4]);
    lemma_word_fields(addrs[4]);
    assert(values[0] < 128 && values[1] < 128 && values[2] < 128 && values[3] < 128 && values[4]
        < 128);
}

proof fn lemma_serial(s: u8, a: u8, b: u8, c: u8, d: u8, e: u8)
    by (bit_vector)
    requires
        s < 32,
    ensures
        ((((((((((((s >> 1) | ((a & 1) << 4)) >> 1) | ((b & 1) << 4)) >> 1) | ((c & 1) << 4)) >> 1) | (
        (d & 1) << 4)) >> 1) | ((e & 1) << 4)) & 31)) == a % 2 + 2 * (b % 2) + 4 * (c % 2) + 8 * (d
            % 2) + 16 * (e % 2),
        a < 128 ==> a & 0x80 == 0,
        b < 128 ==> b & 0x80 == 0,
        c < 128 ==> c & 0x80 == 0,
        d < 128 ==> d & 0x80 == 0,
        e < 128 ==> e & 0x80 == 0,
{
}

/// A write right after another does nothing. One with bit 7 drops the bits that wait and fixes the
/// last bank high; the other settings stay.
#[verifier::rlimit(40)]
pub proof fn law_mmc1_resets(m: Mmc1, addr: u16, value: u8)
    requires
        m.valid(),
    ensures
        m.written(addr, value, true) == m,
        value >= 128 ==> {
            let d = m.written(addr, value, false);
            &&& d.shift_count == 0
            &&& d.control / 4 % 4 == 3
            &&& d.control % 4 == m.control % 4
            &&& d.control / 16 == m.control / 16
            &&& d.chr0 == m.chr0 && d.chr1 == m.chr1 && d.prg == m.prg
        },
{
    lemma_fields(value);
    lemma_fields(m.control);
}

/// The mirroring is by bits 0 and 1 of the control register; RAM is off while bit 4 of the program
/// register is set.
#[verifier::rlimit(40)]
pub proof fn law_mmc1_controls(m: Mmc1)
    ensures
        m.mirrors() == if m.control % 4 == 0 {
            Mirroring::SingleScreenLower
        } else if m.control % 4 == 1 {
            Mirroring::SingleScreenUpper
        } else if m.control % 4 == 2 {
            Mirroring::Vertical
        } else {
            Mirroring::Horizontal
        },
        m.ram_on() == (m.prg / 16 % 2 == 0),
{
    lemma_fields(m.control);
    lemma_fields(m.prg);
}

#[verifier::rlimit(40)]
proof fn lemma_bank_place(bank: int, count: int, within: int)
    requires
        count > 0,
        0 <= within < 0x4000,
        0 <= bank,
    ensures
        (bank % count) * 0x4000 + within == (bank * 0x4000 + within) % (count * 0x4000),
        0 <= bank % count < count,
        (bank % count) * 0x4000 + within < count * 0x4000,
{
    let r = bank % count;
    let q = bank / count;
    vstd::arithmetic::div_mod::lemma_fundamental_div_mod(bank, count);
    vstd::arithmetic::div_mod::lemma_mod_bound(bank, count);
    assert(bank * 0x4000 + within == q * (count * 0x4000) + (r * 0x4000 + within))
        by (nonlinear_arith)
        requires
            bank == count * q + r,
    ;
    assert(r * 0x4000 + within < count * 0x4000);
    lemma_fundamental_div_mod_converse(
        bank * 0x4000 + within,
        count * 0x4000,
        q,
        r * 0x4000 + within,
    );
}

/// MMC1 shows two 16 KB windows of program memory, `$8000` and `$C000`, byte after byte. In modes 0
/// and 1 they are an even bank and the next; in mode 2 the first bank is fixed low, and in mode 3
/// the last is fixed high, and the other window is the bank that was told. Banks repeat.
#[verifier::rlimit(40)]
pub proof fn law_mmc1_programs(m: Mmc1, prg: Seq<u8>, n: int, addr: u16)
    requires
        m.valid(),
        n > 0,
        prg.len() == n * 0x4000,
        addr >= 0x8000,
    ensures
        ({
            let mode = m.control as int / 4 % 4;
            let bank = m.prg as int % 16;
            let a = addr - 0x8000;
            m.prg_byte(prg, addr) == if mode < 2 {
                repeated(prg, (bank - bank % 2) * 0x4000 + a)
            } else if mode == 2 {
                if a < 0x4000 { prg[a] } else { repeated(prg, bank * 0x4000 + a - 0x4000) }
            } else {
                if a < 0x4000 {
                    repeated(prg, bank * 0x4000 + a)
                } else {
                    prg[prg.len() - 0x8000 + a]
                }
            }
        }),
{
    assert((m.control >> 2) & 3 == m.control / 4 % 4) by {
        lemma_fields(m.control);
    }
    assert(m.prg & 15 == m.prg % 16) by {
        lemma_fields(m.prg);
    }
    let bank = m.prg as int % 16;
    let low = bank - bank % 2;
    lemma_window(prg, n, low, addr);
    lemma_window(prg, n, low + 1, addr);
    lemma_window(prg, n, bank, addr);
    lemma_window(prg, n, 0, addr);
    lemma_window(prg, n, n - 1, addr);
    lemma_ends(prg, n, addr);
}

/// The byte that `addr` selects in its window.
#[verifier::rlimit(40)]
proof fn lemma_window(prg: Seq<u8>, n: int, bank: int, addr: u16)
    requires
        n > 0,
        prg.len() == n * 0x4000,
        addr >= 0x8000,
        bank >= 0,
    ensures
        bank_count(prg.len()) == n,
        bank16_byte(prg, bank, addr) == repeated(prg, bank * 0x4000 + (addr - 0x8000) % 0x4000),
        bank16_byte(prg, bank % n, addr) == bank16_byte(prg, bank, addr),
{
    let within = (addr - 0x8000) % 0x4000;
    assert(addr & 0x3FFF == within) by {
        lemma_word_fields(addr);
    }
    assert(bank_count(prg.len()) == n);
    lemma_bank_place(bank, n, within);
    vstd::arithmetic::div_mod::lemma_mod_twice(bank, n);
}

/// The first bank and the last, as they are.
#[verifier::rlimit(40)]
proof fn lemma_ends(prg: Seq<u8>, n: int, addr: u16)
    requires
        n > 0,
        prg.len() == n * 0x4000,
        addr >= 0x8000,
    ensures
        ({
            let within = (addr - 0x8000) % 0x4000;
            &&& repeated(prg, within) == prg[within]
            &&& repeated(prg, (n - 1) * 0x4000 + within) == prg[prg.len() - 0x4000 + within]
        }),
{
    let within = (addr - 0x8000) % 0x4000;
    lemma_small_mod(within as nat, prg.len());
    lemma_small_mod(((n - 1) * 0x4000 + within) as nat, prg.len());
}

/// UxROM shows the bank it was told at `$8000` and the last bank at `$C000`.
pub proof fn law_uxrom_programs(m: Uxrom, prg: Seq<u8>, n: int, addr: u16)
    requires
        n > 0,
        prg.len() == n * 0x4000,
        addr >= 0x8000,
    ensures
        ({
            let a = addr - 0x8000;
            m.prg_byte(prg, addr) == if a < 0x4000 {
                repeated(prg, m.bank * 0x4000 + a)
            } else {
                prg[prg.len() - 0x8000 + a]
            }
        }),
{
    lemma_window(prg, n, m.bank as int, addr);
    lemma_window(prg, n, n - 1, addr);
    lemma_ends(prg, n, addr);
}

/// NROM and CNROM show program memory from `$8000` on, repeated where it is 16 KB.
#[verifier::rlimit(40)]
pub proof fn law_fixed_programs(m: Mapper, prg: Seq<u8>, addr: u16)
    requires
        m is Nrom || m is Cnrom,
        prg.len() == 0x4000 || prg.len() == 0x8000,
        m is Nrom ==> m->Nrom_0.prg_banks == prg.len() / 0x4000,
        addr >= 0x8000,
    ensures
        m.prg_byte(prg, addr) == repeated(prg, addr - 0x8000),
{
    let a = addr - 0x8000;
    if prg.len() == 0x4000 {
        assert(prg.len() / 0x4000 == 1);
        assert(a % 0x4000 % 0x4000 == a % 0x4000);
    } else {
        assert(prg.len() / 0x4000 == 2);
        assert(a % 0x8000 == a);
    }
}

/// A write at `$8000` or above changes nothing under NROM, and tells UxROM its program bank and
/// CNROM its pattern bank; the mapper stays what it is.
pub proof fn law_banks_are_told(m: Mapper, addr: u16, value: u8, consecutive: bool)
    ensures
        match m {
            Mapper::Nrom(_) => m.written(addr, value, consecutive) == m,
            Mapper::Mmc1(c) => m.written(addr, value, consecutive) == Mapper::Mmc1(
                c.written(addr, value, consecutive),
            ),
            Mapper::Uxrom(_) => m.written(addr, value, consecutive) == Mapper::Uxrom(
                Uxrom { bank: value },
            ),
            Mapper::Cnrom(_) => m.written(addr, value, consecutive) == Mapper::Cnrom(
                Cnrom { chr_bank: value },
            ),
        },
{
}

/// Pattern RAM gives back what was written, at the place that the mapper tells and at no other;
/// pattern ROM does not change.
pub proof fn law_pattern_ram_is_written(c: CartModel, addr: u16, value: u8, other: u16)
    requires
        c.mapper.valid(),
    ensures
        ({
            let d = c.chr_written(addr, value);
            &&& c.chr_rom.len() > 0 ==> d == c
            &&& c.chr_rom.len() == 0 && c.chr_ram.len() > 0 ==> {
                let n = c.chr_ram.len();
                &&& d.chr_byte(addr) == value
                &&& c.mapper.chr_position(other, n) != c.mapper.chr_position(addr, n)
                    ==> d.chr_byte(other) == c.chr_byte(other)
                &&& d == CartModel { chr_ram: d.chr_ram, ..c }
            }
        }),
{
    if c.chr_rom.len() == 0 && c.chr_ram.len() > 0 {
        law_patterns_come_from_their_bank(c.mapper, c.chr_ram, addr);
        let n = c.chr_ram.len() as int;
        let p = c.mapper.chr_position(addr, n as nat);
        let q = c.mapper.chr_position(other, n as nat);
        lemma_inside(c.mapper, addr, n);
        lemma_inside(c.mapper, other, n);
    }
}

proof fn lemma_inside(m: Mapper, addr: u16, n: int)
    requires
        n > 0,
    ensures
        0 <= m.chr_position(addr, n as nat) < n,
{
    let within = (addr & 0x1FFF) as int;
    let position = match m {
        Mapper::Nrom(_) => within,
        Mapper::Mmc1(c) => c.chr_position(within),
        Mapper::Uxrom(_) => within,
        Mapper::Cnrom(c) => c.chr_bank * 0x2000 + within,
    };
    vstd::arithmetic::div_mod::lemma_mod_bound(position, n);
}

/// The mirroring is the mapper's where it selects one, and that of the image otherwise.
pub proof fn law_mirroring_is_selected(c: CartModel)
    ensures
        c.mirrors() == match c.mapper {
            Mapper::Mmc1(m) => m.mirrors(),
            _ => c.info.mirroring,
        },
        c.mapper.ram_on() == match c.mapper {
            Mapper::Mmc1(m) => m.ram_on(),
            _ => true,
        },
{
}

} // verus!

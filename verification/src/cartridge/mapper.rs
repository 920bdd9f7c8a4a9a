//! Mappers: how a cartridge's ROM banks appear in the CPU's and PPU's address spaces.
//!
//! Bank registers can hold any value. Every address is reduced modulo the memory that is really
//! there, so no register makes a read go out of bounds. Bus conflicts are not modelled: what the
//! CPU writes takes effect as it is.

use vstd::prelude::*;
use vstd::string::*;

use super::{Mirroring, CHR_BANK_SIZE, PRG_BANK_SIZE};
use crate::bits::lemma_mask_u8;
use crate::fingerprint::{put_u8, Fp};
use crate::text::{dec, dollar_hex2, dollar_hex2_text, prefixed_dec, push_dec};

verus! {

/// The byte at `i`, or 0 where there is none.
pub open spec fn byte_or_zero(s: Seq<u8>, i: int) -> u8 {
    if 0 <= i < s.len() { s[i] } else { 0 }
}

fn get_or_zero(s: &[u8], i: usize) -> (byte: u8)
    ensures
        byte == byte_or_zero(s@, i as int),
{
    if i < s.len() {
        s[i]
    } else {
        0
    }
}

/// How many 16 KB banks there are, counting an incomplete one as one.
pub open spec fn bank_count(len: nat) -> nat {
    if len / 0x4000 == 0 { 1 } else { len / 0x4000 }
}

fn prg_banks(prg_rom_len: usize) -> (count: usize)
    ensures
        count == bank_count(prg_rom_len as nat),
        1 <= count,
        count == 1 || count * 0x4000 <= prg_rom_len,
{
    let count: usize = prg_rom_len / PRG_BANK_SIZE;
    if count == 0 {
        1
    } else {
        count
    }
}

/// The byte of 16 KB bank `bank` (modulo the number of banks) that `addr` selects.
pub open spec fn bank16_byte(prg: Seq<u8>, bank: int, addr: u16) -> u8 {
    byte_or_zero(prg, (bank % bank_count(prg.len()) as int) * 0x4000 + (addr & 0x3FFF))
}

fn read_bank16(prg_rom: &[u8], bank: usize, addr: u16) -> (byte: u8)
    ensures
        byte == bank16_byte(prg_rom@, bank as int, addr),
{
    let n: usize = prg_banks(prg_rom.len());
    proof {
        vstd::arithmetic::div_mod::lemma_mod_bound(bank as int, n as int);
        assert(addr & 0x3FFF <= 0x3FFF) by (bit_vector);
    }
    let index: usize = (bank % n) * PRG_BANK_SIZE + (addr & 0x3FFF) as usize;
    get_or_zero(prg_rom, index)
}

/// A fixed PRG-ROM at `$8000`, repeated as often as it fits.
pub open spec fn mirrored_byte(prg: Seq<u8>, addr: u16) -> u8 {
    byte_or_zero(
        prg,
        addr.wrapping_sub(0x8000) as int % if prg.len() == 0 { 1int } else { prg.len() as int },
    )
}

fn mirrored_prg(prg_rom: &[u8], addr: u16) -> (byte: u8)
    ensures
        byte == mirrored_byte(prg_rom@, addr),
{
    let offset: usize = addr.wrapping_sub(0x8000) as usize;
    let len: usize = if prg_rom.len() == 0 { 1 } else { prg_rom.len() };
    get_or_zero(prg_rom, offset % len)
}

/// One line of a mapper's description for the debugger: a name and a value.
pub type DebugRow = (String, String);

/// The texts of such lines.
pub open spec fn row_texts(rows: Seq<DebugRow>) -> Seq<(Seq<char>, Seq<char>)> {
    Seq::new(rows.len(), |i: int| (rows[i].0@, rows[i].1@))
}

fn push_row(rows: &mut Vec<DebugRow>, name: &str, value: String)
    ensures
        row_texts(final(rows)@) == row_texts(old(rows)@).push((name@, value@)),
{
    rows.push((name.to_owned(), value));
    assert(row_texts(rows@) =~= row_texts(old(rows)@).push((name@, value@)));
}

/// Mapper 0: no bank switching. 16 KB of PRG-ROM appear twice.
#[derive(Debug, Clone, Copy, PartialEq, Eq, Structural)]
pub struct Nrom {
    pub prg_banks: u8,
}

impl Nrom {
    pub fn new(prg_banks: u8) -> (nrom: Self)
        ensures
            nrom.prg_banks == prg_banks,
    {
        Nrom { prg_banks }
    }

    pub open spec fn prg_byte(self, prg: Seq<u8>, addr: u16) -> u8 {
        let offset = addr.wrapping_sub(0x8000) as int;
        let within = if self.prg_banks <= 1 { offset % 0x4000 } else { offset };
        byte_or_zero(prg, within % if prg.len() == 0 { 1int } else { prg.len() as int })
    }

    /// Reads CPU address `addr`, `$8000` or above.
    pub fn read_prg(&self, prg_rom: &[u8], addr: u16) -> (byte: u8)
        ensures
            byte == self.prg_byte(prg_rom@, addr),
    {
        let mut offset: usize = addr.wrapping_sub(0x8000) as usize;
        if self.prg_banks <= 1 {
            offset = offset % PRG_BANK_SIZE;
        }
        let len: usize = if prg_rom.len() == 0 { 1 } else { prg_rom.len() };
        get_or_zero(prg_rom, offset % len)
    }

    /// Reads PPU address `addr`, below `$2000`.
    pub fn read_chr(&self, chr: &[u8], addr: u16) -> (byte: u8)
        ensures
            byte == byte_or_zero(
                chr@,
                addr as int % if chr@.len() == 0 { 1int } else { chr@.len() as int },
            ),
    {
        let len: usize = if chr.len() == 0 { 1 } else { chr.len() };
        get_or_zero(chr, addr as usize % len)
    }
}

/// Mapper 1: a five-bit serial port in front of four registers.
///
/// - `$8000-$9FFF`: control. Bits 0 and 1 mirroring, 2 and 3 PRG mode, 4 CHR mode.
/// - `$A000-$BFFF`: CHR bank 0. `$C000-$DFFF`: CHR bank 1.
/// - `$E000-$FFFF`: PRG bank (bits 0 to 3) and PRG-RAM off (bit 4).
#[derive(Debug, Clone, Copy, PartialEq, Eq, Structural)]
pub struct Mmc1 {
    /// The bits received so far, each entering at bit 4 and moving down.
    pub shift: u8,
    /// How many were received, 0 to 4.
    pub shift_count: u8,
    pub control: u8,
    pub chr0: u8,
    pub chr1: u8,
    pub prg: u8,
}

proof fn lemma_serial_bits(shift: u8, control: u8, value: u8)
    by (bit_vector)
    ensures
        shift < 0x20 ==> (shift >> 1) | ((value & 1) << 4) < 0x20,
        control < 0x20 ==> control | 0x0C < 0x20,
{
}

impl Default for Mmc1 {
    fn default() -> (mmc1: Self)
        ensures
            mmc1 == Mmc1::powered_on(),
    {
        Mmc1::new()
    }
}

impl Mmc1 {
    /// Power-on: PRG mode 3, with the last bank fixed at `$C000`.
    pub open spec fn powered_on() -> Mmc1 {
        Mmc1 { shift: 0, shift_count: 0, control: 0x0C, chr0: 0, chr1: 0, prg: 0 }
    }

    pub fn new() -> (mmc1: Self)
        ensures
            mmc1 == Mmc1::powered_on(),
    {
        Mmc1 { shift: 0, shift_count: 0, control: 0x0C, chr0: 0, chr1: 0, prg: 0 }
    }

    /// The registers hold five bits each, and fewer than five bits wait in the serial port.
    pub open spec fn valid(self) -> bool {
        &&& self.shift < 0x20
        &&& self.shift_count < 5
        &&& self.control < 0x20
        &&& self.chr0 < 0x20
        &&& self.chr1 < 0x20
        &&& self.prg < 0x20
    }

    pub fn is_structurally_valid(&self) -> (yes: bool)
        ensures
            yes == self.valid(),
    {
        self.shift < 0x20 && self.shift_count < 5 && self.control < 0x20 && self.chr0 < 0x20
            && self.chr1 < 0x20 && self.prg < 0x20
    }

    /// The registers with `data` in the one that bits 13 and 14 of the address select, and the
    /// serial port empty.
    pub open spec fn loaded(self, addr: u16, data: u8) -> Mmc1 {
        let which = (addr >> 13) & 3;
        Mmc1 {
            shift: 0,
            shift_count: 0,
            control: if which == 0 { data } else { self.control },
            chr0: if which == 1 { data } else { self.chr0 },
            chr1: if which == 2 { data } else { self.chr1 },
            prg: if which != 0 && which != 1 && which != 2 { data } else { self.prg },
        }
    }

    /// One write. A write in the cycle right after another is ignored. Bit 7 empties the serial
    /// port and selects PRG mode 3. Otherwise bit 0 enters the port, and the fifth bit loads the
    /// register that its address selects.
    pub open spec fn written(self, addr: u16, value: u8, consecutive: bool) -> Mmc1 {
        let shift = (self.shift >> 1) | ((value & 1) << 4);
        if consecutive {
            self
        } else if value & 0x80 != 0 {
            Mmc1 { shift: 0, shift_count: 0, control: self.control | 0x0C, ..self }
        } else if self.shift_count == 4 {
            self.loaded(addr, shift & 31)
        } else {
            Mmc1 { shift, shift_count: (self.shift_count + 1) as u8, ..self }
        }
    }

    pub fn write(&mut self, addr: u16, value: u8, consecutive: bool)
        requires
            old(self).valid(),
        ensures
            *final(self) == old(self).written(addr, value, consecutive),
            final(self).valid(),
    {
        broadcast use lemma_mask_u8;

        proof {
            lemma_serial_bits(self.shift, self.control, value);
        }
        if consecutive {
            return;
        }
        if value & 0x80 != 0 {
            self.shift = 0;
            self.shift_count = 0;
            self.control = self.control | 0x0C;
            return;
        }
        self.shift = (self.shift >> 1) | ((value & 1) << 4);
        self.shift_count = self.shift_count + 1;
        if self.shift_count == 5 {
            let data: u8 = self.shift & 31;
            match (addr >> 13) & 3 {
                0 => {
                    self.control = data;
                },
                1 => {
                    self.chr0 = data;
                },
                2 => {
                    self.chr1 = data;
                },
                _ => {
                    self.prg = data;
                },
            }
            self.shift = 0;
            self.shift_count = 0;
        }
    }

    /// The 16 KB banks at `$8000` and `$C000`, of `n`: a pair in 32 KB mode, the first bank fixed
    /// low in mode 2, the last fixed high in mode 3.
    pub open spec fn prg_bank_pair(self, n: int) -> (int, int) {
        let bank = (self.prg & 15) as int;
        let mode = (self.control >> 2) & 3;
        if mode == 0 || mode == 1 {
            ((bank - bank % 2) % n, (bank - bank % 2 + 1) % n)
        } else if mode == 2 {
            (0int % n, bank % n)
        } else {
            (bank % n, (n - 1) % n)
        }
    }

    fn prg_banks(&self, n: usize) -> (banks: (usize, usize))
        requires
            n >= 1,
        ensures
            (banks.0 as int, banks.1 as int) == self.prg_bank_pair(n as int),
    {
        let bank: usize = (self.prg & 15) as usize;
        let mode: u8 = (self.control >> 2) & 3;
        let (lo, hi): (usize, usize) = if mode == 0 || mode == 1 {
            (bank - bank % 2, bank - bank % 2 + 1)
        } else if mode == 2 {
            (0, bank)
        } else {
            (bank, n - 1)
        };
        (lo % n, hi % n)
    }

    pub open spec fn prg_mode_name(self) -> Seq<char> {
        let mode = (self.control >> 2) & 3;
        if mode == 0 || mode == 1 {
            "0/1：32KB 切換"@
        } else if mode == 2 {
            "2：$8000 固定第一個，$C000 切換"@
        } else {
            "3：$8000 切換，$C000 固定最後一個"@
        }
    }

    fn prg_mode_text(&self) -> (text: &'static str)
        ensures
            text@ == self.prg_mode_name(),
    {
        match (self.control >> 2) & 3 {
            0 | 1 => "0/1：32KB 切換",
            2 => "2：$8000 固定第一個，$C000 切換",
            _ => "3：$8000 切換，$C000 固定最後一個",
        }
    }

    pub open spec fn prg_byte(self, prg: Seq<u8>, addr: u16) -> u8 {
        let pair = self.prg_bank_pair(bank_count(prg.len()) as int);
        bank16_byte(prg, if addr < 0xC000 { pair.0 } else { pair.1 }, addr)
    }

    pub fn read_prg(&self, prg_rom: &[u8], addr: u16) -> (byte: u8)
        ensures
            byte == self.prg_byte(prg_rom@, addr),
    {
        let n: usize = prg_banks(prg_rom.len());
        let (lo, hi): (usize, usize) = self.prg_banks(n);
        read_bank16(prg_rom, if addr < 0xC000 { lo } else { hi }, addr)
    }

    /// The 4 KB banks at `$0000` and `$1000` of the PPU: a pair in 8 KB mode, two of their own
    /// otherwise.
    pub open spec fn chr_bank_pair(self) -> (int, int) {
        if self.control & 0x10 == 0 {
            ((self.chr0 & 0x1E) as int, (self.chr0 & 0x1E) as int + 1)
        } else {
            (self.chr0 as int, self.chr1 as int)
        }
    }

    fn chr_banks_4k(&self) -> (banks: (usize, usize))
        ensures
            (banks.0 as int, banks.1 as int) == self.chr_bank_pair(),
            banks.0 <= 256,
            banks.1 <= 256,
    {
        if self.control & 0x10 == 0 {
            let base: usize = (self.chr0 & 0x1E) as usize;
            (base, base + 1)
        } else {
            (self.chr0 as usize, self.chr1 as usize)
        }
    }

    pub open spec fn chr_position(self, addr: int) -> int {
        let pair = self.chr_bank_pair();
        (if addr < 0x1000 { pair.0 } else { pair.1 }) * 0x1000 + addr % 0x1000
    }

    fn chr_offset(&self, addr: usize) -> (offset: usize)
        requires
            addr < 0x2000,
        ensures
            offset == self.chr_position(addr as int),
    {
        let (b0, b1): (usize, usize) = self.chr_banks_4k();
        let bank: usize = if addr < 0x1000 { b0 } else { b1 };
        bank * 0x1000 + addr % 0x1000
    }

    pub open spec fn mirrors(self) -> Mirroring {
        let select = self.control & 3;
        if select == 0 {
            Mirroring::SingleScreenLower
        } else if select == 1 {
            Mirroring::SingleScreenUpper
        } else if select == 2 {
            Mirroring::Vertical
        } else {
            Mirroring::Horizontal
        }
    }

    pub fn mirroring(&self) -> (mirroring: Mirroring)
        ensures
            mirroring == self.mirrors(),
    {
        match self.control & 3 {
            0 => Mirroring::SingleScreenLower,
            1 => Mirroring::SingleScreenUpper,
            2 => Mirroring::Vertical,
            _ => Mirroring::Horizontal,
        }
    }

    pub open spec fn ram_on(self) -> bool {
        self.prg & 0x10 == 0
    }

    pub fn prg_ram_enabled(&self) -> (yes: bool)
        ensures
            yes == self.ram_on(),
    {
        self.prg & 0x10 == 0
    }
}

/// Mapper 2: a switchable 16 KB bank at `$8000`, the last bank fixed at `$C000`.
#[derive(Debug, Clone, Copy, PartialEq, Eq, Structural)]
pub struct Uxrom {
    pub bank: u8,
}

impl Default for Uxrom {
    fn default() -> (uxrom: Self)
        ensures
            uxrom.bank == 0,
    {
        Uxrom { bank: 0 }
    }
}

impl Uxrom {
    pub fn new() -> (uxrom: Self)
        ensures
            uxrom.bank == 0,
    {
        Uxrom { bank: 0 }
    }

    pub open spec fn prg_byte(self, prg: Seq<u8>, addr: u16) -> u8 {
        bank16_byte(
            prg,
            if addr < 0xC000 { self.bank as int } else { bank_count(prg.len()) - 1 },
            addr,
        )
    }

    pub fn read_prg(&self, prg_rom: &[u8], addr: u16) -> (byte: u8)
        ensures
            byte == self.prg_byte(prg_rom@, addr),
    {
        let n: usize = prg_banks(prg_rom.len());
        let bank: usize = if addr < 0xC000 { self.bank as usize } else { n - 1 };
        read_bank16(prg_rom, bank, addr)
    }
}

/// Mapper 3: fixed PRG-ROM, and a switchable 8 KB CHR bank.
#[derive(Debug, Clone, Copy, PartialEq, Eq, Structural)]
pub struct Cnrom {
    pub chr_bank: u8,
}

impl Default for Cnrom {
    fn default() -> (cnrom: Self)
        ensures
            cnrom.chr_bank == 0,
    {
        Cnrom { chr_bank: 0 }
    }
}

impl Cnrom {
    pub fn new() -> (cnrom: Self)
        ensures
            cnrom.chr_bank == 0,
    {
        Cnrom { chr_bank: 0 }
    }
}

/// A cartridge's mapper, with its registers.
#[derive(Debug, Clone, Copy, PartialEq, Eq, Structural)]
pub enum Mapper {
    Nrom(Nrom),
    Mmc1(Mmc1),
    Uxrom(Uxrom),
    Cnrom(Cnrom),
}

impl Mapper {
    pub open spec fn number(self) -> u8 {
        match self {
            Mapper::Nrom(_) => 0,
            Mapper::Mmc1(_) => 1,
            Mapper::Uxrom(_) => 2,
            Mapper::Cnrom(_) => 3,
        }
    }

    /// The iNES mapper number.
    pub fn id(&self) -> (id: u8)
        ensures
            id == self.number(),
    {
        match self {
            Mapper::Nrom(_) => 0,
            Mapper::Mmc1(_) => 1,
            Mapper::Uxrom(_) => 2,
            Mapper::Cnrom(_) => 3,
        }
    }

    pub open spec fn label(self) -> Seq<char> {
        match self {
            Mapper::Nrom(_) => "NROM"@,
            Mapper::Mmc1(_) => "MMC1"@,
            Mapper::Uxrom(_) => "UxROM"@,
            Mapper::Cnrom(_) => "CNROM"@,
        }
    }

    pub fn name(&self) -> (name: &'static str)
        ensures
            name@ == self.label(),
    {
        match self {
            Mapper::Nrom(_) => "NROM",
            Mapper::Mmc1(_) => "MMC1",
            Mapper::Uxrom(_) => "UxROM",
            Mapper::Cnrom(_) => "CNROM",
        }
    }

    pub open spec fn prg_byte(self, prg: Seq<u8>, addr: u16) -> u8 {
        match self {
            Mapper::Nrom(m) => m.prg_byte(prg, addr),
            Mapper::Mmc1(m) => m.prg_byte(prg, addr),
            Mapper::Uxrom(m) => m.prg_byte(prg, addr),
            Mapper::Cnrom(_) => mirrored_byte(prg, addr),
        }
    }

    /// Reads CPU address `addr`, `$8000` or above.
    pub fn read_prg(&self, prg_rom: &[u8], addr: u16) -> (byte: u8)
        ensures
            byte == self.prg_byte(prg_rom@, addr),
    {
        match self {
            Mapper::Nrom(m) => m.read_prg(prg_rom, addr),
            Mapper::Mmc1(m) => m.read_prg(prg_rom, addr),
            Mapper::Uxrom(m) => m.read_prg(prg_rom, addr),
            Mapper::Cnrom(_) => mirrored_prg(prg_rom, addr),
        }
    }

    pub open spec fn written(self, addr: u16, value: u8, consecutive: bool) -> Mapper {
        match self {
            Mapper::Nrom(_) => self,
            Mapper::Mmc1(m) => Mapper::Mmc1(m.written(addr, value, consecutive)),
            Mapper::Uxrom(_) => Mapper::Uxrom(Uxrom { bank: value }),
            Mapper::Cnrom(_) => Mapper::Cnrom(Cnrom { chr_bank: value }),
        }
    }

    /// Writes keep the registers in the range of the hardware, and the mapper what it is.
    pub proof fn lemma_stays_valid(self, addr: u16, value: u8, consecutive: bool)
        requires
            self.valid(),
        ensures
            self.written(addr, value, consecutive).valid(),
            self.written(addr, value, consecutive).number() == self.number(),
    {
        broadcast use lemma_mask_u8;

        if let Mapper::Mmc1(m) = self {
            lemma_serial_bits(m.shift, m.control, value);
        }
    }

    /// A CPU write at `$8000` or above. `consecutive` marks one in the cycle right after another
    /// write, which only a read-modify-write instruction makes.
    pub fn write_prg(&mut self, addr: u16, value: u8, consecutive: bool)
        requires
            old(self).valid(),
        ensures
            *final(self) == old(self).written(addr, value, consecutive),
            final(self).valid(),
            final(self).number() == old(self).number(),
    {
        match self {
            Mapper::Nrom(_) => {},
            Mapper::Mmc1(m) => {
                m.write(addr, value, consecutive);
            },
            Mapper::Uxrom(m) => {
                m.bank = value;
            },
            Mapper::Cnrom(m) => {
                m.chr_bank = value;
            },
        }
    }

    /// Where PPU address `addr` falls in a CHR memory of `chr_len` bytes.
    pub open spec fn chr_position(self, addr: u16, chr_len: nat) -> int {
        let within = (addr & 0x1FFF) as int;
        let position = match self {
            Mapper::Nrom(_) => within,
            Mapper::Mmc1(m) => m.chr_position(within),
            Mapper::Uxrom(_) => within,
            Mapper::Cnrom(m) => m.chr_bank * 0x2000 + within,
        };
        position % if chr_len == 0 { 1int } else { chr_len as int }
    }

    /// The position in CHR memory, always inside it.
    pub fn chr_offset(&self, addr: u16, chr_len: usize) -> (offset: usize)
        ensures
            offset == self.chr_position(addr, chr_len as nat),
            chr_len > 0 ==> offset < chr_len,
            chr_len == 0 ==> offset == 0,
    {
        assert(addr & 0x1FFF <= 0x1FFF) by (bit_vector);
        let within: usize = (addr & 0x1FFF) as usize;
        let position: usize = match self {
            Mapper::Nrom(_) => within,
            Mapper::Mmc1(m) => m.chr_offset(within),
            Mapper::Uxrom(_) => within,
            Mapper::Cnrom(m) => m.chr_bank as usize * CHR_BANK_SIZE + within,
        };
        let len: usize = if chr_len == 0 { 1 } else { chr_len };
        proof {
            vstd::arithmetic::div_mod::lemma_mod_bound(position as int, len as int);
        }
        position % len
    }

    pub open spec fn chr_byte(self, chr: Seq<u8>, addr: u16) -> u8 {
        byte_or_zero(chr, self.chr_position(addr, chr.len()))
    }

    pub fn read_chr(&self, chr: &[u8], addr: u16) -> (byte: u8)
        ensures
            byte == self.chr_byte(chr@, addr),
    {
        get_or_zero(chr, self.chr_offset(addr, chr.len()))
    }

    pub open spec fn mirrors(self) -> Option<Mirroring> {
        match self {
            Mapper::Mmc1(m) => Some(m.mirrors()),
            _ => None,
        }
    }

    /// The mirroring that the mapper itself selects, if it does.
    pub fn mirroring(&self) -> (mirroring: Option<Mirroring>)
        ensures
            mirroring == self.mirrors(),
    {
        match self {
            Mapper::Mmc1(m) => Some(m.mirroring()),
            _ => None,
        }
    }

    pub open spec fn ram_on(self) -> bool {
        match self {
            Mapper::Mmc1(m) => m.ram_on(),
            _ => true,
        }
    }

    /// Whether the PRG-RAM at `$6000` answers.
    pub fn prg_ram_enabled(&self) -> (yes: bool)
        ensures
            yes == self.ram_on(),
    {
        match self {
            Mapper::Mmc1(m) => m.prg_ram_enabled(),
            _ => true,
        }
    }

    pub open spec fn valid(self) -> bool {
        match self {
            Mapper::Mmc1(m) => m.valid(),
            _ => true,
        }
    }

    pub fn is_structurally_valid(&self) -> (yes: bool)
        ensures
            yes == self.valid(),
    {
        match self {
            Mapper::Mmc1(m) => m.is_structurally_valid(),
            _ => true,
        }
    }

    /// What the registers add to a fingerprint, after the mapper's number. A bank count that the
    /// header fixes is not among them.
    #[verifier::opaque]
    pub open spec fn stamp(self, rest: Seq<u8>) -> Seq<u8> {
        put_u8(
            self.number(),
            match self {
                Mapper::Nrom(_) => rest,
                Mapper::Mmc1(m) => put_u8(
                    m.shift,
                    put_u8(
                        m.shift_count,
                        put_u8(m.control, put_u8(m.chr0, put_u8(m.chr1, put_u8(m.prg, rest)))),
                    ),
                ),
                Mapper::Uxrom(m) => put_u8(m.bank, rest),
                Mapper::Cnrom(m) => put_u8(m.chr_bank, rest),
            },
        )
    }

    pub fn fingerprint(&self, h: &mut Fp)
        ensures
            forall|rest: Seq<u8>| #[trigger] (final(h)@ + rest) == old(h)@ + self.stamp(rest),
    {
        reveal(Mapper::stamp);
        h.u8(self.id());
        match self {
            Mapper::Nrom(_) => {},
            Mapper::Mmc1(m) => {
                h.u8(m.shift);
                h.u8(m.shift_count);
                h.u8(m.control);
                h.u8(m.chr0);
                h.u8(m.chr1);
                h.u8(m.prg);
            },
            Mapper::Uxrom(m) => {
                h.u8(m.bank);
            },
            Mapper::Cnrom(m) => {
                h.u8(m.chr_bank);
            },
        }
    }

    pub open spec fn description(self, prg_len: nat, chr_len: nat) -> Seq<(Seq<char>, Seq<char>)> {
        let n = bank_count(prg_len);
        match self {
            Mapper::Nrom(_) => seq![("PRG"@, dec(n) + " 個 16KB bank，無切換"@)],
            Mapper::Uxrom(m) => seq![
                ("bank 暫存器"@, dollar_hex2(m.bank)),
                ("PRG $8000-$BFFF"@, "bank "@ + dec((m.bank as int % n as int) as nat)),
                ("PRG $C000-$FFFF"@, "bank "@ + dec((n - 1) as nat) + "（固定最後一個）"@),
            ],
            Mapper::Cnrom(m) => seq![
                ("CHR bank 暫存器"@, dollar_hex2(m.chr_bank)),
                (
                    "CHR $0000-$1FFF"@,
                    "8KB bank "@ + dec((m.chr_bank as int % at_least_one(chr_len / 0x2000)) as nat),
                ),
            ],
            Mapper::Mmc1(m) => m.description(n, chr_len),
        }
    }

    /// The debugger's lines: the raw registers, then the banks that they select now, for the given
    /// sizes of PRG-ROM and CHR memory.
    pub fn debug_rows(&self, prg_rom_len: usize, chr_len: usize) -> (rows: Vec<DebugRow>)
        ensures
            row_texts(rows@) == self.description(prg_rom_len as nat, chr_len as nat),
    {
        let n: usize = prg_banks(prg_rom_len);
        let mut rows: Vec<DebugRow> = Vec::new();
        match self {
            Mapper::Nrom(_) => {
                let mut text: String = String::new();
                push_dec(&mut text, n as u64);
                text.append(" 個 16KB bank，無切換");
                assert(text@ =~= dec(n as nat) + " 個 16KB bank，無切換"@);
                push_row(&mut rows, "PRG", text);
            },
            Mapper::Uxrom(m) => {
                push_row(&mut rows, "bank 暫存器", dollar_hex2_text(m.bank));
                push_row(
                    &mut rows,
                    "PRG $8000-$BFFF",
                    prefixed_dec("bank ", (m.bank as usize % n) as u64),
                );
                let mut last: String = prefixed_dec("bank ", (n - 1) as u64);
                last.append("（固定最後一個）");
                push_row(&mut rows, "PRG $C000-$FFFF", last);
            },
            Mapper::Cnrom(m) => {
                let banks: usize = chr_len / CHR_BANK_SIZE;
                let banks: usize = if banks == 0 { 1 } else { banks };
                push_row(&mut rows, "CHR bank 暫存器", dollar_hex2_text(m.chr_bank));
                push_row(
                    &mut rows,
                    "CHR $0000-$1FFF",
                    prefixed_dec("8KB bank ", (m.chr_bank as usize % banks) as u64),
                );
            },
            Mapper::Mmc1(m) => {
                m.push_debug_rows(&mut rows, n, chr_len);
            },
        }
        assert(row_texts(rows@) =~= self.description(prg_rom_len as nat, chr_len as nat));
        rows
    }
}

/// `n`, or 1 where it is 0.
pub open spec fn at_least_one(n: nat) -> int {
    if n == 0 { 1 } else { n as int }
}

impl Mmc1 {
    pub open spec fn description(self, n: nat, chr_len: nat) -> Seq<(Seq<char>, Seq<char>)> {
        let (lo, hi) = self.prg_bank_pair(n as int);
        let (c0, c1) = self.chr_bank_pair();
        let chr_4k = at_least_one(chr_len / 0x1000);
        seq![
            ("Control ($8000)"@, dollar_hex2(self.control)),
            ("CHR bank 0 ($A000)"@, dollar_hex2(self.chr0)),
            ("CHR bank 1 ($C000)"@, dollar_hex2(self.chr1)),
            ("PRG bank ($E000)"@, dollar_hex2(self.prg)),
            (
                "移位暫存器"@,
                dollar_hex2(self.shift) + "（已寫入 "@ + dec(self.shift_count as nat) + " / 5 bit）"@,
            ),
            ("PRG 模式"@, self.prg_mode_name()),
            ("PRG $8000-$BFFF"@, "bank "@ + dec(lo as nat)),
            ("PRG $C000-$FFFF"@, "bank "@ + dec(hi as nat)),
            ("CHR 模式"@, if self.control & 0x10 == 0 { "8KB"@ } else { "兩個 4KB"@ }),
            ("CHR $0000-$0FFF"@, "4KB bank "@ + dec((c0 % chr_4k) as nat)),
            ("CHR $1000-$1FFF"@, "4KB bank "@ + dec((c1 % chr_4k) as nat)),
            ("Mirroring"@, self.mirrors().label()),
            ("PRG-RAM"@, if self.ram_on() { "啟用"@ } else { "停用"@ }),
        ]
    }

    fn push_debug_rows(&self, rows: &mut Vec<DebugRow>, n: usize, chr_len: usize)
        requires
            n >= 1,
            old(rows)@.len() == 0,
        ensures
            row_texts(final(rows)@) == self.description(n as nat, chr_len as nat),
    {
        let (lo, hi): (usize, usize) = self.prg_banks(n);
        let (c0, c1): (usize, usize) = self.chr_banks_4k();
        let chr_4k: usize = chr_len / 0x1000;
        let chr_4k: usize = if chr_4k == 0 { 1 } else { chr_4k };
        push_row(rows, "Control ($8000)", dollar_hex2_text(self.control));
        push_row(rows, "CHR bank 0 ($A000)", dollar_hex2_text(self.chr0));
        push_row(rows, "CHR bank 1 ($C000)", dollar_hex2_text(self.chr1));
        push_row(rows, "PRG bank ($E000)", dollar_hex2_text(self.prg));
        let mut port: String = dollar_hex2_text(self.shift);
        port.append("（已寫入 ");
        push_dec(&mut port, self.shift_count as u64);
        port.append(" / 5 bit）");
        push_row(rows, "移位暫存器", port);
        push_row(rows, "PRG 模式", self.prg_mode_text().to_owned());
        push_row(rows, "PRG $8000-$BFFF", prefixed_dec("bank ", lo as u64));
        push_row(rows, "PRG $C000-$FFFF", prefixed_dec("bank ", hi as u64));
        push_row(
            rows,
            "CHR 模式",
            if self.control & 0x10 == 0 { "8KB".to_owned() } else { "兩個 4KB".to_owned() },
        );
        push_row(rows, "CHR $0000-$0FFF", prefixed_dec("4KB bank ", (c0 % chr_4k) as u64));
        push_row(rows, "CHR $1000-$1FFF", prefixed_dec("4KB bank ", (c1 % chr_4k) as u64));
        push_row(rows, "Mirroring", self.mirroring().name().to_owned());
        push_row(
            rows,
            "PRG-RAM",
            if self.prg_ram_enabled() { "啟用".to_owned() } else { "停用".to_owned() },
        );
        assert(row_texts(rows@) =~= self.description(n as nat, chr_len as nat));
    }
}

/// Five writes to one address, none right behind another and none with bit 7 set, put their low
/// bits into the register of that address, the first write's bit lowest, and leave the serial
/// port empty.
pub proof fn law_five_writes_load_a_register(m: Mmc1, addr: u16, value: u8)
    requires
        m.valid(),
        m.shift_count == 0,
        value < 0x20,
    ensures
        m.written(addr, value & 1, false).written(addr, (value >> 1) & 1, false).written(
            addr,
            (value >> 2) & 1,
            false,
        ).written(addr, (value >> 3) & 1, false).written(addr, (value >> 4) & 1, false)
            == m.loaded(addr, value),
{
    let s0 = m.shift;
    assert(({
        let b0 = value & 1;
        let b1 = (value >> 1) & 1;
        let b2 = (value >> 2) & 1;
        let b3 = (value >> 3) & 1;
        let b4 = (value >> 4) & 1;
        let s1 = (s0 >> 1) | ((b0 & 1) << 4);
        let s2 = (s1 >> 1) | ((b1 & 1) << 4);
        let s3 = (s2 >> 1) | ((b2 & 1) << 4);
        let s4 = (s3 >> 1) | ((b3 & 1) << 4);
        let s5 = (s4 >> 1) | ((b4 & 1) << 4);
        &&& b0 & 0x80 == 0
        &&& b1 & 0x80 == 0
        &&& b2 & 0x80 == 0
        &&& b3 & 0x80 == 0
        &&& b4 & 0x80 == 0
        &&& value < 0x20 && s0 < 0x20 ==> s5 & 31 == value
    })) by (bit_vector);
}

/// A write in the cycle right after another write changes nothing, even one that would reset.
pub proof fn law_a_consecutive_write_is_ignored(m: Mmc1, addr: u16, value: u8)
    ensures
        m.written(addr, value, true) == m,
{
}

/// Whatever the registers hold, a PRG read that selects a bank falls inside a ROM that is at
/// least one bank long.
pub proof fn law_bank_reads_stay_inside(prg: Seq<u8>, bank: int, addr: u16)
    requires
        prg.len() >= 0x4000,
    ensures
        0 <= (bank % bank_count(prg.len()) as int) * 0x4000 + (addr & 0x3FFF) < prg.len(),
{
    let n = bank_count(prg.len()) as int;
    vstd::arithmetic::div_mod::lemma_mod_bound(bank, n);
    assert(addr & 0x3FFF <= 0x3FFF) by (bit_vector);
}

} // verus!

//! Cartridges: the ROM file format, the memory on board, and the mapper in front of it.

use vstd::prelude::*;
use vstd::string::*;

use crate::error::RomError;
use crate::fingerprint::{put_bytes, xxh3_128, xxh3_128_of, Fp};
use crate::text::{low_hex, push_low_hex};

pub mod ines;
pub mod mapper;

pub use mapper::{Cnrom, DebugRow, Mapper, Mmc1, Nrom, Uxrom};
use mapper::row_texts;

verus! {

pub const PRG_BANK_SIZE: usize = 0x4000;

pub const CHR_BANK_SIZE: usize = 0x2000;

/// The CHR-RAM of a cartridge without CHR-ROM.
pub const CHR_RAM_SIZE: usize = 0x2000;

/// The PRG-RAM at `$6000-$7FFF`.
pub const PRG_RAM_SIZE: usize = 0x2000;

/// How the four logical nametables share the two physical ones.
#[derive(Debug, Clone, Copy, PartialEq, Eq, Structural)]
pub enum Mirroring {
    Horizontal,
    Vertical,
    FourScreen,
    SingleScreenLower,
    SingleScreenUpper,
}

impl Mirroring {
    pub open spec fn label(self) -> Seq<char> {
        match self {
            Mirroring::Horizontal => "Horizontal"@,
            Mirroring::Vertical => "Vertical"@,
            Mirroring::FourScreen => "FourScreen"@,
            Mirroring::SingleScreenLower => "SingleScreenLower"@,
            Mirroring::SingleScreenUpper => "SingleScreenUpper"@,
        }
    }

    pub fn name(&self) -> (name: &'static str)
        ensures
            name@ == self.label(),
    {
        match self {
            Mirroring::Horizontal => "Horizontal",
            Mirroring::Vertical => "Vertical",
            Mirroring::FourScreen => "FourScreen",
            Mirroring::SingleScreenLower => "SingleScreenLower",
            Mirroring::SingleScreenUpper => "SingleScreenUpper",
        }
    }
}

/// What the header of a ROM file says.
#[derive(Debug, Clone, Copy, PartialEq, Eq, Structural)]
pub struct RomInfo {
    pub prg_rom_banks: u8,
    pub chr_rom_banks: u8,
    pub mapper_id: u8,
    pub mirroring: Mirroring,
    pub battery_backed: bool,
    pub has_trainer: bool,
}

/// Identifies a ROM: the xxh3-128 hash of its whole file.
#[derive(Debug, Clone, Copy, PartialEq, Eq, Structural)]
pub struct RomId {
    pub hash: u128,
}

impl Default for RomId {
    fn default() -> (id: Self)
        ensures
            id.hash == 0,
    {
        RomId { hash: 0 }
    }
}

impl RomId {
    /// The identity of a file with these bytes, header and trainer included.
    pub fn of_file(bytes: &[u8]) -> (id: Self)
        ensures
            id.hash == xxh3_128_of(bytes@),
    {
        RomId { hash: xxh3_128(bytes) }
    }

    /// The upper half of the hash.
    pub open spec fn high(self) -> u64 {
        (self.hash / 0x1_0000_0000_0000_0000) as u64
    }

    /// The lower half of the hash.
    pub open spec fn low(self) -> u64 {
        (self.hash % 0x1_0000_0000_0000_0000) as u64
    }

    /// The first 16 of the 32 hexadecimal digits.
    pub fn short(&self) -> (text: String)
        ensures
            text@ == low_hex(self.high() as nat, 16),
    {
        let mut text: String = String::new();
        push_low_hex(&mut text, (self.hash / 0x1_0000_0000_0000_0000) as u64, 16);
        assert(text@ =~= low_hex(self.high() as nat, 16));
        text
    }

    /// All 32 hexadecimal digits.
    pub fn text(&self) -> (text: String)
        ensures
            text@ == low_hex(self.high() as nat, 16) + low_hex(self.low() as nat, 16),
    {
        let mut text: String = self.short();
        push_low_hex(&mut text, (self.hash % 0x1_0000_0000_0000_0000) as u64, 16);
        text
    }
}

/// A cartridge in the machine.
#[derive(Debug, Clone)]
pub struct Cartridge {
    pub info: RomInfo,
    /// The program ROM. It never changes, so a save state does not hold it.
    pub prg_rom: Vec<u8>,
    /// The character ROM, empty where the cartridge has CHR-RAM.
    pub chr_rom: Vec<u8>,
    /// The character RAM, empty where the cartridge has CHR-ROM.
    pub chr_ram: Vec<u8>,
    /// The RAM at `$6000-$7FFF`.
    pub prg_ram: Vec<u8>,
    pub mapper: Mapper,
    pub rom_id: RomId,
}

/// A cartridge as a value.
pub struct CartModel {
    pub info: RomInfo,
    pub prg_rom: Seq<u8>,
    pub chr_rom: Seq<u8>,
    pub chr_ram: Seq<u8>,
    pub prg_ram: Seq<u8>,
    pub mapper: Mapper,
    pub rom_id: RomId,
}

impl View for Cartridge {
    type V = CartModel;

    open spec fn view(&self) -> CartModel {
        CartModel {
            info: self.info,
            prg_rom: self.prg_rom@,
            chr_rom: self.chr_rom@,
            chr_ram: self.chr_ram@,
            prg_ram: self.prg_ram@,
            mapper: self.mapper,
            rom_id: self.rom_id,
        }
    }
}

impl CartModel {
    /// What every access needs: 8 KB of PRG-RAM, and mapper registers in range.
    pub open spec fn wf(self) -> bool {
        self.prg_ram.len() == 0x2000 && self.mapper.valid()
    }

    /// A cartridge that a ROM file can give: the RAM that the header calls for, and its mapper.
    pub open spec fn valid(self) -> bool {
        &&& self.wf()
        &&& self.chr_ram.len() == if self.info.chr_rom_banks == 0 { 0x2000nat } else { 0 }
        &&& self.mapper.number() == self.info.mapper_id
    }

    /// The same ROM: what never changes in a cartridge.
    pub open spec fn same_rom(self, other: CartModel) -> bool {
        &&& self.info == other.info
        &&& self.prg_rom == other.prg_rom
        &&& self.chr_rom == other.chr_rom
        &&& self.rom_id == other.rom_id
    }

    pub open spec fn prg_byte(self, addr: u16) -> u8 {
        self.mapper.prg_byte(self.prg_rom, addr)
    }

    pub open spec fn chr_byte(self, addr: u16) -> u8 {
        self.mapper.chr_byte(if self.chr_rom.len() == 0 { self.chr_ram } else { self.chr_rom }, addr)
    }

    /// A write to pattern memory: only CHR-RAM changes.
    pub open spec fn chr_written(self, addr: u16, value: u8) -> CartModel {
        if self.chr_rom.len() == 0 && self.chr_ram.len() > 0 {
            CartModel {
                chr_ram: self.chr_ram.update(
                    self.mapper.chr_position(addr, self.chr_ram.len()),
                    value,
                ),
                ..self
            }
        } else {
            self
        }
    }

    pub open spec fn prg_written(self, addr: u16, value: u8, consecutive: bool) -> CartModel {
        CartModel { mapper: self.mapper.written(addr, value, consecutive), ..self }
    }

    /// The mirroring in force: the mapper's, or else the header's.
    pub open spec fn mirrors(self) -> Mirroring {
        match self.mapper.mirrors() {
            Some(m) => m,
            None => self.info.mirroring,
        }
    }

    /// The size of the CHR memory that the PPU sees.
    pub open spec fn chr_len(self) -> nat {
        if self.chr_rom.len() == 0 { self.chr_ram.len() } else { self.chr_rom.len() }
    }

    /// What the cartridge adds to a fingerprint: what can change in it.
    #[verifier::opaque]
    pub open spec fn stamp(self, rest: Seq<u8>) -> Seq<u8> {
        self.mapper.stamp(put_bytes(self.prg_ram, put_bytes(self.chr_ram, rest)))
    }
}

impl Cartridge {
    /// Reads a ROM file.
    pub fn from_ines(bytes: &[u8]) -> (result: Result<Self, RomError>)
        ensures
            ines::parses_to(bytes@, RomId { hash: xxh3_128_of(bytes@) }, result),
    {
        ines::parse(bytes)
    }

    /// Reads CPU address `addr`, `$8000` or above.
    pub fn read_prg(&self, addr: u16) -> (byte: u8)
        ensures
            byte == self@.prg_byte(addr),
    {
        self.mapper.read_prg(self.prg_rom.as_slice(), addr)
    }

    /// A CPU write at `$8000` or above: it reaches the mapper's registers.
    pub fn write_prg(&mut self, addr: u16, value: u8, consecutive: bool)
        requires
            old(self)@.wf(),
        ensures
            final(self)@ == old(self)@.prg_written(addr, value, consecutive),
            final(self)@.wf(),
    {
        self.mapper.write_prg(addr, value, consecutive);
    }

    /// Writes PPU address `addr`, below `$2000`. CHR-ROM ignores it.
    pub fn write_chr(&mut self, addr: u16, value: u8)
        ensures
            final(self)@ == old(self)@.chr_written(addr, value),
            old(self)@.wf() ==> final(self)@.wf(),
    {
        if self.chr_rom.len() == 0 && self.chr_ram.len() > 0 {
            let offset: usize = self.mapper.chr_offset(addr, self.chr_ram.len());
            self.chr_ram.set(offset, value);
        }
    }

    /// Reads PPU address `addr`, below `$2000`.
    pub fn read_chr(&self, addr: u16) -> (byte: u8)
        ensures
            byte == self@.chr_byte(addr),
    {
        if self.chr_rom.len() == 0 {
            self.mapper.read_chr(self.chr_ram.as_slice(), addr)
        } else {
            self.mapper.read_chr(self.chr_rom.as_slice(), addr)
        }
    }

    pub fn mirroring(&self) -> (mirroring: Mirroring)
        ensures
            mirroring == self@.mirrors(),
    {
        match self.mapper.mirroring() {
            Some(m) => m,
            None => self.info.mirroring,
        }
    }

    pub fn fingerprint(&self, h: &mut Fp)
        ensures
            forall|rest: Seq<u8>| #[trigger] (final(h)@ + rest) == old(h)@ + self@.stamp(rest),
    {
        reveal(CartModel::stamp);
        self.mapper.fingerprint(h);
        h.bytes(self.prg_ram.as_slice());
        h.bytes(self.chr_ram.as_slice());
    }

    /// What the debugger shows of the mapper.
    pub fn mapper_debug_rows(&self) -> (rows: Vec<DebugRow>)
        ensures
            row_texts(rows@) == self.mapper.description(self@.prg_rom.len(), self@.chr_len()),
    {
        let chr_len: usize = if self.chr_rom.len() == 0 {
            self.chr_ram.len()
        } else {
            self.chr_rom.len()
        };
        self.mapper.debug_rows(self.prg_rom.len(), chr_len)
    }
}

} // verus!

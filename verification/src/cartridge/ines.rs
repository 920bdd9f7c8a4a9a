//! The iNES 1.0 file format.
//!
//! | offset | content                                              |
//! |--------|------------------------------------------------------|
//! | 0..4   | `NES` and `$1A`                                      |
//! | 4      | PRG-ROM size in 16 KB units                          |
//! | 5      | CHR-ROM size in 8 KB units; 0 means CHR-RAM          |
//! | 6      | mirroring, battery, trainer, low half of the mapper  |
//! | 7      | high half of the mapper, NES 2.0 marker              |
//! | 8..16  | not used here                                        |

use vstd::prelude::*;

use super::{
    CartModel, Cartridge, Cnrom, Mapper, Mirroring, Mmc1, Nrom, RomId, RomInfo, Uxrom,
    CHR_BANK_SIZE, CHR_RAM_SIZE, PRG_BANK_SIZE, PRG_RAM_SIZE,
};
use crate::error::RomError;
use crate::fingerprint::xxh3_128_of;

verus! {

pub const HEADER_SIZE: usize = 16;

pub const TRAINER_SIZE: usize = 512;

/// What the 16 bytes of a header say.
pub open spec fn header_info(bytes: Seq<u8>) -> RomInfo {
    RomInfo {
        prg_rom_banks: bytes[4],
        chr_rom_banks: bytes[5],
        mapper_id: (bytes[7] & 0xF0) | (bytes[6] >> 4),
        mirroring: if bytes[6] & 0x08 != 0 {
            Mirroring::FourScreen
        } else if bytes[6] & 0x01 != 0 {
            Mirroring::Vertical
        } else {
            Mirroring::Horizontal
        },
        battery_backed: bytes[6] & 0x02 != 0,
        has_trainer: bytes[6] & 0x04 != 0,
    }
}

/// Where PRG-ROM starts: behind the header, and behind the trainer if there is one.
pub open spec fn prg_start(info: RomInfo) -> int {
    if info.has_trainer { 528 } else { 16 }
}

pub open spec fn chr_start(info: RomInfo) -> int {
    prg_start(info) + info.prg_rom_banks * 0x4000
}

/// The size of the file that the header declares.
pub open spec fn declared_size(info: RomInfo) -> int {
    chr_start(info) + info.chr_rom_banks * 0x2000
}

/// The mapper of a given number, as it powers on.
pub open spec fn fresh_mapper(info: RomInfo) -> Mapper {
    if info.mapper_id == 0 {
        Mapper::Nrom(Nrom { prg_banks: info.prg_rom_banks })
    } else if info.mapper_id == 1 {
        Mapper::Mmc1(Mmc1::powered_on())
    } else if info.mapper_id == 2 {
        Mapper::Uxrom(Uxrom { bank: 0 })
    } else {
        Mapper::Cnrom(Cnrom { chr_bank: 0 })
    }
}

/// Why a file is refused, the first reason that holds; `None` when it is not.
pub open spec fn refusal(bytes: Seq<u8>) -> Option<RomError> {
    let info = header_info(bytes);
    if bytes.len() < 16 {
        Some(RomError::TooSmall)
    } else if !(bytes[0] == 0x4E && bytes[1] == 0x45 && bytes[2] == 0x53 && bytes[3] == 0x1A) {
        Some(RomError::BadMagic)
    } else if bytes[7] & 0x0C == 0x08 {
        Some(RomError::Nes20Unsupported)
    } else if info.prg_rom_banks == 0 {
        Some(RomError::NoPrgRom)
    } else if bytes.len() < declared_size(info) {
        Some(
            RomError::Truncated {
                expected: declared_size(info) as usize,
                actual: bytes.len() as usize,
            },
        )
    } else if info.mapper_id > 3 {
        Some(RomError::UnsupportedMapper(info.mapper_id))
    } else {
        None
    }
}

/// The cartridge in a file that is not refused.
pub open spec fn cartridge_in(bytes: Seq<u8>, rom_id: RomId) -> CartModel {
    let info = header_info(bytes);
    CartModel {
        info,
        prg_rom: bytes.subrange(prg_start(info), chr_start(info)),
        chr_rom: bytes.subrange(chr_start(info), declared_size(info)),
        chr_ram: if info.chr_rom_banks == 0 {
            Seq::new(0x2000, |i: int| 0u8)
        } else {
            Seq::empty()
        },
        prg_ram: Seq::new(0x2000, |i: int| 0u8),
        mapper: fresh_mapper(info),
        rom_id,
    }
}

/// `result` is what reading the file gives: its cartridge, or the reason why not.
pub open spec fn parses_to(
    bytes: Seq<u8>,
    rom_id: RomId,
    result: Result<Cartridge, RomError>,
) -> bool {
    match refusal(bytes) {
        Some(error) => result == Err::<Cartridge, RomError>(error),
        None => result is Ok && result->Ok_0@ == cartridge_in(bytes, rom_id)
            && result->Ok_0@.valid(),
    }
}

/// A file that is not refused holds a cartridge.
pub proof fn lemma_cartridge_is_valid(bytes: Seq<u8>, rom_id: RomId)
    requires
        refusal(bytes) is None,
    ensures
        cartridge_in(bytes, rom_id).valid(),
{
}

/// Reads a ROM file and identifies it by its hash.
pub fn parse(bytes: &[u8]) -> (result: Result<Cartridge, RomError>)
    ensures
        parses_to(bytes@, RomId { hash: xxh3_128_of(bytes@) }, result),
{
    let rom_id: RomId = RomId::of_file(bytes);
    parse_as(bytes, rom_id)
}

/// Reads a ROM file that goes by the given identity.
pub fn parse_as(bytes: &[u8], rom_id: RomId) -> (result: Result<Cartridge, RomError>)
    ensures
        parses_to(bytes@, rom_id, result),
{
    if bytes.len() < HEADER_SIZE {
        return Err(RomError::TooSmall);
    }
    if bytes[0] != 0x4E || bytes[1] != 0x45 || bytes[2] != 0x53 || bytes[3] != 0x1A {
        return Err(RomError::BadMagic);
    }
    let prg_rom_banks: u8 = bytes[4];
    let chr_rom_banks: u8 = bytes[5];
    let flags6: u8 = bytes[6];
    let flags7: u8 = bytes[7];
    if flags7 & 0x0C == 0x08 {
        return Err(RomError::Nes20Unsupported);
    }
    if prg_rom_banks == 0 {
        return Err(RomError::NoPrgRom);
    }
    let mapper_id: u8 = (flags7 & 0xF0) | (flags6 >> 4);
    let mirroring: Mirroring = if flags6 & 0x08 != 0 {
        Mirroring::FourScreen
    } else if flags6 & 0x01 != 0 {
        Mirroring::Vertical
    } else {
        Mirroring::Horizontal
    };
    let battery_backed: bool = flags6 & 0x02 != 0;
    let has_trainer: bool = flags6 & 0x04 != 0;
    let prg_start: usize = if has_trainer { HEADER_SIZE + TRAINER_SIZE } else { HEADER_SIZE };
    let chr_start: usize = prg_start + prg_rom_banks as usize * PRG_BANK_SIZE;
    let expected: usize = chr_start + chr_rom_banks as usize * CHR_BANK_SIZE;
    if bytes.len() < expected {
        return Err(RomError::Truncated { expected, actual: bytes.len() });
    }
    let mapper: Mapper = match mapper_id {
        0 => Mapper::Nrom(Nrom::new(prg_rom_banks)),
        1 => Mapper::Mmc1(Mmc1::new()),
        2 => Mapper::Uxrom(Uxrom::new()),
        3 => Mapper::Cnrom(Cnrom::new()),
        other => {
            return Err(RomError::UnsupportedMapper(other));
        },
    };
    let info: RomInfo = RomInfo {
        prg_rom_banks,
        chr_rom_banks,
        mapper_id,
        mirroring,
        battery_backed,
        has_trainer,
    };
    let prg_rom: Vec<u8> = copy_range(bytes, prg_start, chr_start);
    let chr_rom: Vec<u8> = copy_range(bytes, chr_start, expected);
    let chr_ram: Vec<u8> = if chr_rom_banks == 0 { vec![0u8; CHR_RAM_SIZE] } else { Vec::new() };
    let prg_ram: Vec<u8> = vec![0u8; PRG_RAM_SIZE];
    let cartridge: Cartridge = Cartridge {
        info,
        prg_rom,
        chr_rom,
        chr_ram,
        prg_ram,
        mapper,
        rom_id,
    };
    assert(cartridge@.chr_ram =~= cartridge_in(bytes@, rom_id).chr_ram);
    assert(cartridge@.prg_ram =~= cartridge_in(bytes@, rom_id).prg_ram);
    Ok(cartridge)
}

fn copy_range(bytes: &[u8], from: usize, to: usize) -> (copy: Vec<u8>)
    requires
        from <= to <= bytes@.len(),
    ensures
        copy@ == bytes@.subrange(from as int, to as int),
{
    let mut copy: Vec<u8> = Vec::new();
    copy.extend_from_slice(vstd::slice::slice_subrange(bytes, from, to));
    assert(copy@ =~= bytes@.subrange(from as int, to as int));
    copy
}

} // verus!

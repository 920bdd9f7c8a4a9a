//! Cartridge images: what is in the header, and where the memories are.

use vstd::prelude::*;

use super::words::{bit, lemma_joined, lemma_shifts, one_if};
use crate::cartridge::ines::{
    cartridge_in, chr_start, declared_size, header_info, prg_start, refusal,
};
use crate::cartridge::mapper::{Cnrom, Mapper, Mmc1, Nrom, Uxrom};
use crate::cartridge::{Mirroring, RomId};
use crate::error::RomError;

verus! {

/// The header holds the sizes in bytes 4 and 5, the mapper's number in the high halves of bytes 7
/// and 6, and in byte 6 the mirroring (bit 0, or bit 3 for four screens), a battery (bit 1) and a
/// trainer (bit 2).
#[verifier::rlimit(40)]
pub proof fn law_headers_are_read(bytes: Seq<u8>)
    requires
        bytes.len() >= 16,
    ensures
        ({
            let info = header_info(bytes);
            &&& info.prg_rom_banks == bytes[4]
            &&& info.chr_rom_banks == bytes[5]
            &&& info.mapper_id == 16 * (bytes[7] / 16) + bytes[6] / 16
            &&& info.mirroring == if bit(bytes[6], 3) {
                Mirroring::FourScreen
            } else if bit(bytes[6], 0) {
                Mirroring::Vertical
            } else {
                Mirroring::Horizontal
            }
            &&& info.battery_backed == bit(bytes[6], 1)
            &&& info.has_trainer == bit(bytes[6], 2)
        }),
{
    lemma_joined(bytes[7], bytes[6]);
    lemma_shifts(bytes[6]);
}

/// An image is the header, a trainer of 512 bytes if the header says so, the program and the
/// patterns. Taking it apart gives the program and the patterns back; without patterns there are
/// 8 KB of pattern RAM. The mapper is fresh.
#[verifier::rlimit(40)]
pub proof fn law_images_are_taken_apart(
    header: Seq<u8>,
    trainer: Seq<u8>,
    prg: Seq<u8>,
    chr: Seq<u8>,
    rest: Seq<u8>,
    id: RomId,
)
    requires
        header.len() == 16,
        header.subrange(0, 4) == seq![0x4Eu8, 0x45, 0x53, 0x1A],
        !(bit(header[7], 3) && !bit(header[7], 2)),
        trainer.len() == 512 * one_if(bit(header[6], 2)),
        prg.len() == 16384 * header[4],
        header[4] > 0,
        chr.len() == 8192 * header[5],
        header[6] / 16 < 4,
        header[7] < 16,
    ensures
        ({
            let bytes = header + trainer + prg + chr + rest;
            let c = cartridge_in(bytes, id);
            &&& refusal(bytes) is None
            &&& c.prg_rom == prg
            &&& c.chr_rom == chr
            &&& c.chr_ram.len() == if chr.len() == 0 { 8192nat } else { 0 }
            &&& c.prg_ram.len() == 8192
            &&& forall|i: int| 0 <= i < c.chr_ram.len() ==> c.chr_ram[i] == 0
            &&& forall|i: int| 0 <= i < 8192 ==> c.prg_ram[i] == 0
            &&& c.rom_id == id
            &&& c.mapper.number() == header[6] / 16
            &&& c.mapper == if header[6] / 16 == 0 {
                Mapper::Nrom(Nrom { prg_banks: header[4] })
            } else if header[6] / 16 == 1 {
                Mapper::Mmc1(
                    Mmc1 { shift: 0, shift_count: 0, control: 12, chr0: 0, chr1: 0, prg: 0 },
                )
            } else if header[6] / 16 == 2 {
                Mapper::Uxrom(Uxrom { bank: 0 })
            } else {
                Mapper::Cnrom(Cnrom { chr_bank: 0 })
            }
        }),
{
    let bytes = header + trainer + prg + chr + rest;
    law_headers_are_read(bytes);
    lemma_joined(bytes[7], bytes[6]);
    assert(header.subrange(0, 4)[0] == header[0] && header.subrange(0, 4)[1] == header[1]
        && header.subrange(0, 4)[2] == header[2] && header.subrange(0, 4)[3] == header[3]);
    assert(bytes[0] == header[0] && bytes[1] == header[1] && bytes[2] == header[2] && bytes[3]
        == header[3] && bytes[4] == header[4] && bytes[5] == header[5] && bytes[6] == header[6]
        && bytes[7] == header[7]);
    let info = header_info(bytes);
    assert(prg_start(info) == 16 + trainer.len());
    assert(chr_start(info) == 16 + trainer.len() + prg.len());
    assert(declared_size(info) == 16 + trainer.len() + prg.len() + chr.len());
    let c = cartridge_in(bytes, id);
    assert(c.prg_rom =~= prg);
    assert(c.chr_rom =~= chr);
}

/// An image is refused for the first of these that holds: it is shorter than a header; it does not
/// begin with the four magic bytes; it is of the later format; it has no program; it is shorter than
/// its header tells; its mapper is not one of the four. A longer one is not refused.
#[verifier::rlimit(40)]
pub proof fn law_images_are_refused(bytes: Seq<u8>)
    requires
        bytes.len() <= usize::MAX,
    ensures
        ({
            let whole = bytes.len() >= 16;
            let magic = bytes.subrange(0, 4) == seq![0x4Eu8, 0x45, 0x53, 0x1A];
            let later = bit(bytes[7], 3) && !bit(bytes[7], 2);
            let told = 16 + 512 * one_if(bit(bytes[6], 2)) + 16384 * bytes[4] + 8192 * bytes[5];
            let id = 16 * (bytes[7] / 16) + bytes[6] / 16;
            let e = refusal(bytes);
            &&& e == Some(RomError::TooSmall) <==> !whole
            &&& e == Some(RomError::BadMagic) <==> whole && !magic
            &&& e == Some(RomError::Nes20Unsupported) <==> whole && magic && later
            &&& e == Some(RomError::NoPrgRom) <==> whole && magic && !later && bytes[4] == 0
            &&& whole && magic && !later && bytes[4] > 0 && bytes.len() < told ==> e == Some(
                RomError::Truncated { expected: told as usize, actual: bytes.len() as usize },
            )
            &&& whole && magic && !later && bytes[4] > 0 && bytes.len() >= told ==> e == if id > 3 {
                Some(RomError::UnsupportedMapper(id as u8))
            } else {
                None
            }
        }),
{
    if bytes.len() >= 16 {
        law_headers_are_read(bytes);
        lemma_joined(bytes[7], bytes[6]);
        let start = bytes.subrange(0, 4);
        let magic = seq![0x4Eu8, 0x45, 0x53, 0x1A];
        if start == magic {
            assert(start[0] == 0x4E && start[1] == 0x45 && start[2] == 0x53 && start[3] == 0x1A);
        } else if bytes[0] == 0x4E && bytes[1] == 0x45 && bytes[2] == 0x53 && bytes[3] == 0x1A {
            assert(start =~= magic);
        }
    }
}

} // verus!

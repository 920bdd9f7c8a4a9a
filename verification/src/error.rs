//! What can go wrong: reading a ROM file, and restoring a save state.

use vstd::prelude::*;
use vstd::string::*;

use crate::cartridge::RomId;
use crate::state::StateHeader;
use crate::text::{dec, low_hex, push_dec};

verus! {

/// Why a file is not a cartridge that this machine can run.
#[derive(Debug, Clone, Copy, PartialEq, Eq, Structural)]
pub enum RomError {
    /// Shorter than the 16-byte header.
    TooSmall,
    /// The header does not start with `NES` and `$1A`.
    BadMagic,
    /// The header is in the NES 2.0 format.
    Nes20Unsupported,
    /// The header declares no PRG-ROM.
    NoPrgRom,
    /// The cartridge has four nametables of its own.
    FourScreenUnsupported,
    /// No mapper of this number exists here.
    UnsupportedMapper(u8),
    /// The file ends before the data that the header declares.
    Truncated { expected: usize, actual: usize },
}

impl RomError {
    /// The message for the user.
    pub open spec fn text(self) -> Seq<char> {
        match self {
            RomError::TooSmall => "ROM 檔案過小，不足以包含 16 位元組的 iNES header"@,
            RomError::BadMagic => "缺少 'NES\\x1A' magic number，不是有效的 iNES 檔案"@,
            RomError::Nes20Unsupported => "偵測到 NES 2.0 格式，本階段尚未支援"@,
            RomError::NoPrgRom => "ROM 沒有 PRG-ROM（header 宣告 0 個 PRG bank）"@,
            RomError::FourScreenUnsupported => "four-screen（4 螢幕）nametable 卡帶尚未支援"@,
            RomError::UnsupportedMapper(id) => "mapper "@ + dec(id as nat) + " 尚未實作"@,
            RomError::Truncated { expected, actual } => "ROM 資料長度不足：header 宣告需要 "@ + dec(
                expected as nat,
            ) + " bytes，實際只有 "@ + dec(actual as nat) + " bytes"@,
        }
    }

    pub fn message(&self) -> (message: String)
        ensures
            message@ == self.text(),
    {
        match self {
            RomError::TooSmall => "ROM 檔案過小，不足以包含 16 位元組的 iNES header".to_owned(),
            RomError::BadMagic => "缺少 'NES\\x1A' magic number，不是有效的 iNES 檔案".to_owned(),
            RomError::Nes20Unsupported => "偵測到 NES 2.0 格式，本階段尚未支援".to_owned(),
            RomError::NoPrgRom => "ROM 沒有 PRG-ROM（header 宣告 0 個 PRG bank）".to_owned(),
            RomError::FourScreenUnsupported => "four-screen（4 螢幕）nametable 卡帶尚未支援".to_owned(),
            RomError::UnsupportedMapper(id) => {
                let mut text: String = "mapper ".to_owned();
                push_dec(&mut text, *id as u64);
                text.append(" 尚未實作");
                text
            },
            RomError::Truncated { expected, actual } => {
                let mut text: String = "ROM 資料長度不足：header 宣告需要 ".to_owned();
                push_dec(&mut text, *expected as u64);
                text.append(" bytes，實際只有 ");
                push_dec(&mut text, *actual as u64);
                text.append(" bytes");
                text
            },
        }
    }
}

/// Why bytes were not decoded.
#[derive(Debug, Clone, Copy, PartialEq, Eq, Structural)]
pub enum DecodeError {
    /// The bytes end too early.
    UnexpectedEnd,
    /// A number does not end, or is too large for its field.
    BadNumber,
    /// A flag is neither 0 nor 1.
    BadFlag,
    /// What tells whether a value follows is neither 0 nor 1.
    BadOption,
    /// A variant has a number that no variant has.
    BadTag,
}

impl DecodeError {
    /// The message for the user.
    pub open spec fn text(self) -> Seq<char> {
        match self {
            DecodeError::UnexpectedEnd => "Hit the end of buffer, expected more data"@,
            DecodeError::BadNumber => "Found a varint that didn't terminate. Is the usize too big for this platform?"@,
            DecodeError::BadFlag => "Found a bool that wasn't 0 or 1"@,
            DecodeError::BadOption => "Found an Option discriminant that wasn't 0 or 1"@,
            DecodeError::BadTag => "Serde Deserialization Error"@,
        }
    }

    pub fn message(&self) -> (message: &'static str)
        ensures
            message@ == self.text(),
    {
        match self {
            DecodeError::UnexpectedEnd => "Hit the end of buffer, expected more data",
            DecodeError::BadNumber => "Found a varint that didn't terminate. Is the usize too big for this platform?",
            DecodeError::BadFlag => "Found a bool that wasn't 0 or 1",
            DecodeError::BadOption => "Found an Option discriminant that wasn't 0 or 1",
            DecodeError::BadTag => "Serde Deserialization Error",
        }
    }
}

/// Why a save state was refused.
#[allow(inconsistent_fields)]
#[derive(Debug, Clone, Copy, PartialEq, Eq)]
pub enum StateError {
    /// The bytes end too early, or hold a value that no field can have.
    Decode(DecodeError),
    /// The magic number or a version is another than this program writes.
    VersionMismatch { expected: StateHeader, found: StateHeader },
    /// The bytes decode to a machine that cannot exist.
    Corrupt,
    /// The save belongs to another ROM.
    RomMismatch { expected: RomId, found: RomId },
}

impl StateError {
    /// The message for the user.
    pub open spec fn text(self) -> Seq<char> {
        match self {
            StateError::Decode(cause) => "存檔資料解碼失敗: "@ + cause.text(),
            StateError::VersionMismatch { expected, found } => "存檔版本不符：目前格式 "@ + dec(
                expected.format_version as nat,
            ) + "／核心 "@ + dec(expected.core_version as nat) + "，存檔格式 "@ + dec(
                found.format_version as nat,
            ) + "／核心 "@ + dec(found.core_version as nat),
            StateError::Corrupt => "存檔資料已損毀：內部欄位長度與預期不符"@,
            StateError::RomMismatch { expected, found } => "存檔屬於不同的 ROM（目前 ROM 雜湊 0x"@
                + low_hex(expected.high() as nat, 16) + "，存檔雜湊 0x"@ + low_hex(
                found.high() as nat,
                16,
            ) + "）"@,
        }
    }

    pub fn message(&self) -> (message: String)
        ensures
            message@ == self.text(),
    {
        match self {
            StateError::Decode(cause) => {
                let mut text: String = "存檔資料解碼失敗: ".to_owned();
                text.append(cause.message());
                text
            },
            StateError::VersionMismatch { expected, found } => {
                let mut text: String = "存檔版本不符：目前格式 ".to_owned();
                push_dec(&mut text, expected.format_version as u64);
                text.append("／核心 ");
                push_dec(&mut text, expected.core_version as u64);
                text.append("，存檔格式 ");
                push_dec(&mut text, found.format_version as u64);
                text.append("／核心 ");
                push_dec(&mut text, found.core_version as u64);
                text
            },
            StateError::Corrupt => "存檔資料已損毀：內部欄位長度與預期不符".to_owned(),
            StateError::RomMismatch { expected, found } => {
                let mut text: String = "存檔屬於不同的 ROM（目前 ROM 雜湊 0x".to_owned();
                text.append(expected.short().as_str());
                text.append("，存檔雜湊 0x");
                text.append(found.short().as_str());
                text.append("）");
                text
            },
        }
    }
}

} // verus!

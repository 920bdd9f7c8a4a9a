//! Save states.
//!
//! A save state is a header of eight bytes and the machine, field by field, in the format of
//! [`wire`]. It holds neither the ROM, which the machine that restores it has, nor what the
//! machine outputs.
//!
//! The header names two versions. [`STATE_FORMAT_VERSION`] counts changes of the fields, and
//! [`CORE_BEHAVIOR_VERSION`] changes of what the machine does with them: a state of another
//! version is refused, rather than continued differently than it was begun.

use vstd::prelude::*;

use crate::error::{DecodeError, StateError};
use crate::fingerprint::put_u16;
use crate::nes::{Nes, NesModel};

pub mod parts;
pub mod wire;

use wire::{put_raw, Reader, Tape, Writer};

verus! {

/// The first four bytes of a save state: `NESS`.
pub const STATE_MAGIC: [u8; 4] = [0x4E, 0x45, 0x53, 0x53];

/// The version of the fields.
pub const STATE_FORMAT_VERSION: u16 = 3;

/// The version of what the machine does.
pub const CORE_BEHAVIOR_VERSION: u16 = 3;

/// The length of the header.
pub const HEADER_LEN: usize = 8;

/// The first eight bytes of a save state.
#[derive(Debug, Clone, Copy, PartialEq, Eq)]
pub struct StateHeader {
    pub magic: [u8; 4],
    pub format_version: u16,
    pub core_version: u16,
}

impl StateHeader {
    /// The header that this program writes.
    pub open spec fn is_current(self) -> bool {
        &&& self.magic@ == STATE_MAGIC@
        &&& self.format_version == STATE_FORMAT_VERSION
        &&& self.core_version == CORE_BEHAVIOR_VERSION
    }

    /// The header that `bytes` begin with.
    pub open spec fn is_in(self, bytes: Seq<u8>) -> bool {
        &&& self.magic@ == bytes.take(4)
        &&& self.format_version == bytes[4] + 256 * bytes[5]
        &&& self.core_version == bytes[6] + 256 * bytes[7]
    }

    pub fn current() -> (header: Self)
        ensures
            header.is_current(),
    {
        StateHeader {
            magic: STATE_MAGIC,
            format_version: STATE_FORMAT_VERSION,
            core_version: CORE_BEHAVIOR_VERSION,
        }
    }

    /// The header at the beginning of `bytes`.
    pub fn read(bytes: &[u8]) -> (header: Self)
        requires
            bytes@.len() >= 8,
        ensures
            header.is_in(bytes@),
    {
        let magic: [u8; 4] = [bytes[0], bytes[1], bytes[2], bytes[3]];
        assert(magic@ =~= bytes@.take(4));
        StateHeader {
            magic,
            format_version: bytes[4] as u16 + 256 * bytes[5] as u16,
            core_version: bytes[6] as u16 + 256 * bytes[7] as u16,
        }
    }

    fn fits(&self) -> (yes: bool)
        ensures
            yes == self.is_current(),
    {
        let yes: bool = self.magic[0] == STATE_MAGIC[0] && self.magic[1] == STATE_MAGIC[1]
            && self.magic[2] == STATE_MAGIC[2] && self.magic[3] == STATE_MAGIC[3]
            && self.format_version == STATE_FORMAT_VERSION && self.core_version
            == CORE_BEHAVIOR_VERSION;
        assert(yes ==> self.magic@ =~= STATE_MAGIC@);
        yes
    }
}

/// The bytes begin with the header that this program writes.
pub open spec fn header_fits(bytes: Seq<u8>) -> bool {
    &&& bytes.take(4) == STATE_MAGIC@
    &&& bytes[4] + 256 * bytes[5] == STATE_FORMAT_VERSION
    &&& bytes[6] + 256 * bytes[7] == CORE_BEHAVIOR_VERSION
}

/// The save state of a machine.
pub open spec fn encoded(m: NesModel) -> Seq<u8> {
    put_raw(
        STATE_MAGIC@,
        put_u16(STATE_FORMAT_VERSION, put_u16(CORE_BEHAVIOR_VERSION, m.saved(Seq::empty()))),
    )
}

/// The machine in a save state, and what is wrong with the bytes if they hold none. What follows it
/// is not looked at.
pub open spec fn machine_in(bytes: Seq<u8>) -> (NesModel, Option<DecodeError>) {
    let (m, t) = NesModel::restored(Tape::at(bytes.skip(8)));
    (m, t.fault)
}

/// Why bytes are not decoded: they end before the header does, or no machine follows it.
pub open spec fn decode_fault(bytes: Seq<u8>) -> Option<DecodeError> {
    if bytes.len() < 8 {
        Some(DecodeError::UnexpectedEnd)
    } else if header_fits(bytes) {
        machine_in(bytes).1
    } else {
        None
    }
}

/// What comes of decoding a save state.
pub open spec fn decodes_to(bytes: Seq<u8>, result: Result<Nes, StateError>) -> bool {
    match result {
        Ok(nes) => bytes.len() >= 8 && header_fits(bytes) && machine_in(bytes) == (
            nes@,
            None::<DecodeError>,
        ),
        Err(StateError::Decode(cause)) => decode_fault(bytes) == Some(cause),
        Err(StateError::VersionMismatch { expected, found }) => bytes.len() >= 8 && !header_fits(
            bytes,
        ) && expected.is_current() && found.is_in(bytes),
        Err(_) => false,
    }
}

/// Encodes a machine.
pub fn encode(nes: &Nes) -> (bytes: Vec<u8>)
    ensures
        bytes@ == encoded(nes@),
{
    let mut w: Writer = Writer::new();
    w.raw(STATE_MAGIC.as_slice());
    w.byte((STATE_FORMAT_VERSION % 256) as u8);
    w.byte((STATE_FORMAT_VERSION / 256) as u8);
    w.byte((CORE_BEHAVIOR_VERSION % 256) as u8);
    w.byte((CORE_BEHAVIOR_VERSION / 256) as u8);
    nes.save(&mut w);
    assert(w@ + Seq::<u8>::empty() =~= w@);
    assert(w@ =~= encoded(nes@));
    w.bytes
}

/// Decodes a machine, without checking that such a machine can exist.
pub fn decode(bytes: &[u8]) -> (result: Result<Nes, StateError>)
    ensures
        decodes_to(bytes@, result),
{
    if bytes.len() < HEADER_LEN {
        return Err(StateError::Decode(DecodeError::UnexpectedEnd));
    }
    let found: StateHeader = StateHeader::read(bytes);
    if !found.fits() {
        return Err(StateError::VersionMismatch { expected: StateHeader::current(), found });
    }
    let body: &[u8] = vstd::slice::slice_subrange(bytes, HEADER_LEN, bytes.len());
    assert(body@ =~= bytes@.skip(8));
    let mut r: Reader<'_> = Reader::new(body);
    let nes: Nes = Nes::restore(&mut r);
    match r.fault {
        Some(cause) => Err(StateError::Decode(cause)),
        None => Ok(nes),
    }
}

/// A save state decodes to what it keeps of its machine.
pub proof fn law_decoding_undoes_encoding(m: NesModel)
    requires
        m.cpu.bus.savable(),
    ensures
        encoded(m).len() >= 8,
        header_fits(encoded(m)),
        machine_in(encoded(m)) == (m.kept(), None::<DecodeError>),
{
    let bytes = encoded(m);
    let body = m.saved(Seq::empty());
    assert(bytes.take(4) =~= STATE_MAGIC@);
    assert(bytes.skip(8) =~= body);
    parts::lemma_nes_model_read(m, Seq::empty());
}

} // verus!

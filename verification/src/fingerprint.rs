//! The byte stream behind the behaviour fingerprint.
//!
//! A fingerprint is the xxh3-64 hash of the values of the simulation's fields, written in a fixed
//! order: integers little-endian at their fixed width, a `bool` as one byte, memory with a `u32`
//! length in front. No serialization format takes part, so a fingerprint changes only when the
//! simulated machine does. What each part of the machine writes is the part's `stamp`: a
//! function from the bytes that follow to the whole stream.

use vstd::prelude::*;

verus! {

/// What `xxhash_rust::xxh3::xxh3_64` returns for these bytes.
pub uninterp spec fn xxh3_64_of(bytes: Seq<u8>) -> u64;

/// What `xxhash_rust::xxh3::xxh3_128` returns for these bytes.
pub uninterp spec fn xxh3_128_of(bytes: Seq<u8>) -> u128;

/// Calls `xxhash_rust::xxh3::xxh3_64`, the one-shot hash with the default secret and seed 0. Its
/// result is a function of the bytes alone, and is called `xxh3_64_of`.
#[verifier::external_body]
pub(crate) fn xxh3_64(bytes: &[u8]) -> (hash: u64)
    ensures
        hash == xxh3_64_of(bytes@),
{
    xxhash_rust::xxh3::xxh3_64(bytes)
}

/// Calls `xxhash_rust::xxh3::xxh3_128`, the one-shot hash with the default secret and seed 0. Its
/// result is a function of the bytes alone, and is called `xxh3_128_of`.
#[verifier::external_body]
pub(crate) fn xxh3_128(bytes: &[u8]) -> (hash: u128)
    ensures
        hash == xxh3_128_of(bytes@),
{
    xxhash_rust::xxh3::xxh3_128(bytes)
}

/// One byte, then `rest`.
pub open spec fn put_u8(v: u8, rest: Seq<u8>) -> Seq<u8> {
    seq![v] + rest
}

/// A flag as one byte, 0 or 1, then `rest`.
pub open spec fn put_bool(v: bool, rest: Seq<u8>) -> Seq<u8> {
    put_u8(if v { 1 } else { 0 }, rest)
}

/// Two bytes, low byte first, then `rest`.
pub open spec fn put_u16(v: u16, rest: Seq<u8>) -> Seq<u8> {
    put_u8((v % 256) as u8, put_u8((v / 256) as u8, rest))
}

/// Four bytes, low half first, then `rest`.
pub open spec fn put_u32(v: u32, rest: Seq<u8>) -> Seq<u8> {
    put_u16((v % 0x1_0000) as u16, put_u16((v / 0x1_0000) as u16, rest))
}

/// Eight bytes, low half first, then `rest`.
pub open spec fn put_u64(v: u64, rest: Seq<u8>) -> Seq<u8> {
    put_u32((v % 0x1_0000_0000) as u32, put_u32((v / 0x1_0000_0000) as u32, rest))
}

/// The length modulo 2^32 in four bytes, the bytes themselves, then `rest`.
pub open spec fn put_bytes(v: Seq<u8>, rest: Seq<u8>) -> Seq<u8> {
    put_u32((v.len() % 0x1_0000_0000) as u32, v + rest)
}

/// Collects the bytes of one fingerprint.
pub struct Fp {
    pub bytes: Vec<u8>,
}

impl View for Fp {
    type V = Seq<u8>;

    open spec fn view(&self) -> Seq<u8> {
        self.bytes@
    }
}

impl Fp {
    pub fn new() -> (fp: Self)
        ensures
            fp@ == Seq::<u8>::empty(),
    {
        Fp { bytes: Vec::new() }
    }

    pub fn u8(&mut self, v: u8)
        ensures
            forall|rest: Seq<u8>| #[trigger] (final(self)@ + rest) == old(self)@ + put_u8(v, rest),
    {
        self.bytes.push(v);
        assert forall|rest: Seq<u8>| #[trigger] (self@ + rest) == old(self)@ + put_u8(v, rest) by {
            assert(self@ + rest =~= old(self)@ + put_u8(v, rest));
        }
    }

    pub fn bool(&mut self, v: bool)
        ensures
            forall|rest: Seq<u8>|
                #[trigger] (final(self)@ + rest) == old(self)@ + put_bool(v, rest),
    {
        self.u8(if v { 1 } else { 0 });
    }

    pub fn u16(&mut self, v: u16)
        ensures
            forall|rest: Seq<u8>| #[trigger] (final(self)@ + rest) == old(self)@ + put_u16(v, rest),
    {
        self.u8((v % 256) as u8);
        self.u8((v / 256) as u8);
    }

    pub fn u32(&mut self, v: u32)
        ensures
            forall|rest: Seq<u8>| #[trigger] (final(self)@ + rest) == old(self)@ + put_u32(v, rest),
    {
        self.u16((v % 0x1_0000) as u16);
        self.u16((v / 0x1_0000) as u16);
    }

    pub fn u64(&mut self, v: u64)
        ensures
            forall|rest: Seq<u8>| #[trigger] (final(self)@ + rest) == old(self)@ + put_u64(v, rest),
    {
        self.u32((v % 0x1_0000_0000) as u32);
        self.u32((v / 0x1_0000_0000) as u32);
    }

    /// A `u32` length, then the raw bytes.
    pub fn bytes(&mut self, v: &[u8])
        ensures
            forall|rest: Seq<u8>|
                #[trigger] (final(self)@ + rest) == old(self)@ + put_bytes(v@, rest),
    {
        let len: u64 = v.len() as u64;
        self.u32((len % 0x1_0000_0000) as u32);
        let ghost before = self@;
        self.bytes.extend_from_slice(v);
        assert(self@ =~= before + v@);
        assert forall|rest: Seq<u8>| #[trigger] (self@ + rest) == old(self)@ + put_bytes(v@, rest) by {
            assert(self@ + rest =~= before + (v@ + rest));
        }
    }

    /// The hash of everything written.
    pub fn finish(self) -> (hash: u64)
        ensures
            hash == xxh3_64_of(self@),
    {
        xxh3_64(self.bytes.as_slice())
    }
}

} // verus!

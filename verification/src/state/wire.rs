//! The bytes of a save state: postcard's wire format.
//!
//! A `u8` is one byte and a `bool` one byte that is 0 or 1. Wider integers are variable-length:
//! seven bits to a byte, the lowest first, with the top bit set on every byte but the last. A
//! block of memory is its length and its bytes. The fields of a struct follow one another.
//!
//! A [`Reader`] that meets bytes it cannot take fails for good: from then on it gives zeros, and
//! whoever reads with it asks at the end whether it failed.

use vstd::prelude::*;
use vstd::slice::slice_subrange;

use crate::error::DecodeError;
use crate::fingerprint::{put_bool, put_u8};

verus! {

#[verifier::external_type_specification]
#[verifier::external_body]
pub struct ExPostcardError(postcard::Error);

/// A number, seven bits to a byte, the lowest first. Every byte but the last has its top bit set.
pub open spec fn varint(v: nat) -> Seq<u8>
    decreases v,
{
    if v < 128 { seq![v as u8] } else { seq![(v % 128 + 128) as u8] + varint(v / 128) }
}

/// The number at the beginning of `bytes` and how many bytes it takes: at most `most`, and the
/// last of as many as that is at most `last`. Or else what is wrong with it.
pub open spec fn varint_at(bytes: Seq<u8>, most: nat, last: u8) -> Result<(nat, nat), DecodeError>
    decreases most,
{
    if most == 0 {
        Err(DecodeError::BadNumber)
    } else if bytes.len() == 0 {
        Err(DecodeError::UnexpectedEnd)
    } else if bytes[0] < 128 {
        if most == 1 && bytes[0] > last {
            Err(DecodeError::BadNumber)
        } else {
            Ok((bytes[0] as nat, 1))
        }
    } else {
        match varint_at(bytes.skip(1), (most - 1) as nat, last) {
            Err(e) => Err(e),
            Ok((v, n)) => Ok(((bytes[0] - 128 + 128 * v) as nat, n + 1)),
        }
    }
}

/// Calls `postcard::to_allocvec` on a `u16`, which never fails: the number as a varint.
#[verifier::external_body]
fn u16_to_wire(v: u16) -> (result: Result<Vec<u8>, postcard::Error>)
    ensures
        result is Ok,
        result->Ok_0@ == varint(v as nat),
{
    postcard::to_allocvec(&v)
}

/// Calls `postcard::to_allocvec` on a `u32`, which never fails: the number as a varint.
#[verifier::external_body]
fn u32_to_wire(v: u32) -> (result: Result<Vec<u8>, postcard::Error>)
    ensures
        result is Ok,
        result->Ok_0@ == varint(v as nat),
{
    postcard::to_allocvec(&v)
}

/// Calls `postcard::to_allocvec` on a `u64`, which never fails: the number as a varint.
#[verifier::external_body]
fn u64_to_wire(v: u64) -> (result: Result<Vec<u8>, postcard::Error>)
    ensures
        result is Ok,
        result->Ok_0@ == varint(v as nat),
{
    postcard::to_allocvec(&v)
}

/// Calls `postcard::take_from_bytes` for a `u16`: a varint of at most three bytes whose third is
/// at most 3, and the bytes behind it. Otherwise the error says that the bytes end, or that
/// the varint is a bad one.
#[verifier::external_body]
fn u16_from_wire(bytes: &[u8]) -> (result: Result<(u16, &[u8]), DecodeError>)
    ensures
        match (varint_at(bytes@, 3, 3), result) {
            (Ok((v, n)), Ok((value, rest))) => value == v && rest@ == bytes@.skip(n as int),
            (Err(cause), Err(e)) => cause == e,
            _ => false,
        },
{
    match postcard::take_from_bytes(bytes) {
        Ok(taken) => Ok(taken),
        Err(postcard::Error::DeserializeUnexpectedEnd) => Err(DecodeError::UnexpectedEnd),
        Err(_) => Err(DecodeError::BadNumber),
    }
}

/// Calls `postcard::take_from_bytes` for a `u32`: a varint of at most five bytes whose fifth is
/// at most 15, and the bytes behind it. Otherwise the error says that the bytes end, or that
/// the varint is a bad one.
#[verifier::external_body]
fn u32_from_wire(bytes: &[u8]) -> (result: Result<(u32, &[u8]), DecodeError>)
    ensures
        match (varint_at(bytes@, 5, 15), result) {
            (Ok((v, n)), Ok((value, rest))) => value == v && rest@ == bytes@.skip(n as int),
            (Err(cause), Err(e)) => cause == e,
            _ => false,
        },
{
    match postcard::take_from_bytes(bytes) {
        Ok(taken) => Ok(taken),
        Err(postcard::Error::DeserializeUnexpectedEnd) => Err(DecodeError::UnexpectedEnd),
        Err(_) => Err(DecodeError::BadNumber),
    }
}

/// Calls `postcard::take_from_bytes` for a `u64`: a varint of at most ten bytes whose tenth is
/// at most 1, and the bytes behind it. Otherwise the error says that the bytes end, or that
/// the varint is a bad one.
#[verifier::external_body]
fn u64_from_wire(bytes: &[u8]) -> (result: Result<(u64, &[u8]), DecodeError>)
    ensures
        match (varint_at(bytes@, 10, 1), result) {
            (Ok((v, n)), Ok((value, rest))) => value == v && rest@ == bytes@.skip(n as int),
            (Err(cause), Err(e)) => cause == e,
            _ => false,
        },
{
    match postcard::take_from_bytes(bytes) {
        Ok(taken) => Ok(taken),
        Err(postcard::Error::DeserializeUnexpectedEnd) => Err(DecodeError::UnexpectedEnd),
        Err(_) => Err(DecodeError::BadNumber),
    }
}

/// A number, then `rest`.
pub open spec fn put_number(v: nat, rest: Seq<u8>) -> Seq<u8> {
    varint(v) + rest
}

/// Memory: its length, its bytes, then `rest`.
pub open spec fn put_block(bytes: Seq<u8>, rest: Seq<u8>) -> Seq<u8> {
    put_number(bytes.len(), bytes + rest)
}

/// Bytes whose number is known, then `rest`.
pub open spec fn put_raw(bytes: Seq<u8>, rest: Seq<u8>) -> Seq<u8> {
    bytes + rest
}

/// What is left to read, as long as nothing went wrong.
pub struct Tape {
    pub rest: Seq<u8>,
    /// What went wrong first.
    pub fault: Option<DecodeError>,
}

impl Tape {
    /// Bytes to be read.
    pub open spec fn at(rest: Seq<u8>) -> Tape {
        Tape { rest, fault: None }
    }

    /// Reading failed.
    pub open spec fn bad(fault: DecodeError) -> Tape {
        Tape { rest: Seq::empty(), fault: Some(fault) }
    }

    pub open spec fn good(self) -> bool {
        self.fault is None
    }

    /// Reading fails here, if it has not failed before.
    pub open spec fn failing(self, fault: DecodeError) -> Tape {
        Tape::bad(
            match self.fault {
                Some(first) => first,
                None => fault,
            },
        )
    }

    #[verifier::opaque]
    pub open spec fn byte(self) -> (u8, Tape) {
        if self.good() && self.rest.len() > 0 {
            (self.rest[0], Tape::at(self.rest.skip(1)))
        } else {
            (0, self.failing(DecodeError::UnexpectedEnd))
        }
    }

    /// A byte that is 0 or 1.
    #[verifier::opaque]
    pub open spec fn flag(self) -> (bool, Tape) {
        let (b, t) = self.byte();
        (b == 1, t.kept_if(b <= 1, DecodeError::BadFlag))
    }

    /// Whether a value follows: a byte that is 0 or 1.
    #[verifier::opaque]
    pub open spec fn presence(self) -> (bool, Tape) {
        let (b, t) = self.byte();
        (b == 1, t.kept_if(b <= 1, DecodeError::BadOption))
    }

    /// A varint of at most `most` bytes.
    pub open spec fn number(self, most: nat, last: u8) -> (nat, Tape) {
        match varint_at(self.rest, most, last) {
            Ok((v, n)) => if self.good() {
                (v, Tape::at(self.rest.skip(n as int)))
            } else {
                (0, self.failing(DecodeError::BadNumber))
            },
            Err(e) => (0, self.failing(e)),
        }
    }

    #[verifier::opaque]
    pub open spec fn word(self) -> (u16, Tape) {
        let (v, t) = self.number(3, 3);
        (v as u16, t)
    }

    #[verifier::opaque]
    pub open spec fn long(self) -> (u32, Tape) {
        let (v, t) = self.number(5, 15);
        (v as u32, t)
    }

    #[verifier::opaque]
    pub open spec fn quad(self) -> (u64, Tape) {
        let (v, t) = self.number(10, 1);
        (v as u64, t)
    }

    /// Memory: a length and as many bytes.
    #[verifier::opaque]
    pub open spec fn block(self) -> (Seq<u8>, Tape) {
        let (n, t) = self.quad();
        t.raw(n as int)
    }

    /// As many bytes as are asked for.
    #[verifier::opaque]
    pub open spec fn raw(self, n: int) -> (Seq<u8>, Tape) {
        if self.good() && n <= self.rest.len() {
            (self.rest.take(n), Tape::at(self.rest.skip(n)))
        } else {
            (Seq::empty(), self.failing(DecodeError::UnexpectedEnd))
        }
    }

    /// Thirty-two bytes, zeros where they cannot be read.
    #[verifier::opaque]
    pub open spec fn array32(self) -> (Seq<u8>, Tape) {
        let (bytes, t) = self.raw(32);
        (if t.good() { bytes } else { Seq::new(32, |i: int| 0u8) }, t)
    }

    /// Reading goes on where what was read has a meaning.
    pub open spec fn kept_if(self, fine: bool, fault: DecodeError) -> Tape {
        if fine { self } else { self.failing(fault) }
    }
}

/// One more than the greatest number that fits.
pub open spec fn varint_limit(most: nat, last: u8) -> nat
    decreases most,
{
    if most <= 1 { (last + 1) as nat } else { 128 * varint_limit((most - 1) as nat, last) }
}

proof fn lemma_varint_is_read_back(v: nat, rest: Seq<u8>, most: nat, last: u8)
    requires
        most >= 1,
        last < 128,
        v < varint_limit(most, last),
    ensures
        varint_at(varint(v) + rest, most, last) == Ok::<(nat, nat), DecodeError>(
            (v, varint(v).len()),
        ),
        (varint(v) + rest).skip(varint(v).len() as int) == rest,
    decreases v,
{
    let all = varint(v) + rest;
    assert(all.skip(varint(v).len() as int) =~= rest);
    if v >= 128 {
        lemma_varint_is_read_back(v / 128, rest, (most - 1) as nat, last);
        assert(all.skip(1) =~= varint(v / 128) + rest);
    }
}

pub broadcast proof fn lemma_byte_read(v: u8, rest: Seq<u8>)
    ensures
        #[trigger] Tape::at(put_u8(v, rest)).byte() == (v, Tape::at(rest)),
{
    reveal(Tape::byte);
    assert(put_u8(v, rest).skip(1) =~= rest);
}

pub broadcast proof fn lemma_flag_read(v: bool, rest: Seq<u8>)
    ensures
        #[trigger] Tape::at(put_bool(v, rest)).flag() == (v, Tape::at(rest)),
{
    reveal(Tape::flag);
    lemma_byte_read(if v { 1 } else { 0 }, rest);
}

pub broadcast proof fn lemma_presence_read(v: bool, rest: Seq<u8>)
    ensures
        #[trigger] Tape::at(put_bool(v, rest)).presence() == (v, Tape::at(rest)),
{
    reveal(Tape::presence);
    lemma_byte_read(if v { 1 } else { 0 }, rest);
}

pub broadcast proof fn lemma_word_read(v: u16, rest: Seq<u8>)
    ensures
        #[trigger] Tape::at(put_number(v as nat, rest)).word() == (v, Tape::at(rest)),
{
    reveal(Tape::word);
    reveal_with_fuel(varint_limit, 3);
    lemma_varint_is_read_back(v as nat, rest, 3, 3);
}

pub broadcast proof fn lemma_long_read(v: u32, rest: Seq<u8>)
    ensures
        #[trigger] Tape::at(put_number(v as nat, rest)).long() == (v, Tape::at(rest)),
{
    reveal(Tape::long);
    reveal_with_fuel(varint_limit, 5);
    lemma_varint_is_read_back(v as nat, rest, 5, 15);
}

pub broadcast proof fn lemma_quad_read(v: u64, rest: Seq<u8>)
    ensures
        #[trigger] Tape::at(put_number(v as nat, rest)).quad() == (v, Tape::at(rest)),
{
    reveal(Tape::quad);
    reveal_with_fuel(varint_limit, 10);
    lemma_varint_is_read_back(v as nat, rest, 10, 1);
}

pub broadcast proof fn lemma_raw_read(bytes: Seq<u8>, rest: Seq<u8>)
    ensures
        #[trigger] Tape::at(put_raw(bytes, rest)).raw(bytes.len() as int) == (
            bytes,
            Tape::at(rest),
        ),
{
    reveal(Tape::raw);
    assert(put_raw(bytes, rest).take(bytes.len() as int) =~= bytes);
    assert(put_raw(bytes, rest).skip(bytes.len() as int) =~= rest);
}

pub broadcast proof fn lemma_array32_read(bytes: Seq<u8>, rest: Seq<u8>)
    requires
        bytes.len() == 32,
    ensures
        #[trigger] Tape::at(put_raw(bytes, rest)).array32() == (bytes, Tape::at(rest)),
{
    reveal(Tape::array32);
    lemma_raw_read(bytes, rest);
}

pub broadcast proof fn lemma_block_read(bytes: Seq<u8>, rest: Seq<u8>)
    requires
        bytes.len() <= u64::MAX,
    ensures
        #[trigger] Tape::at(put_block(bytes, rest)).block() == (bytes, Tape::at(rest)),
{
    reveal(Tape::block);
    lemma_quad_read(bytes.len() as u64, put_raw(bytes, rest));
    lemma_raw_read(bytes, rest);
}

/// What is written is read back.
pub broadcast group group_read_back {
    lemma_byte_read,
    lemma_flag_read,
    lemma_presence_read,
    lemma_word_read,
    lemma_long_read,
    lemma_quad_read,
    lemma_raw_read,
    lemma_array32_read,
    lemma_block_read,
}

/// Collects the bytes of a save state.
pub struct Writer {
    pub bytes: Vec<u8>,
}

impl View for Writer {
    type V = Seq<u8>;

    open spec fn view(&self) -> Seq<u8> {
        self.bytes@
    }
}

impl Writer {
    pub fn new() -> (w: Self)
        ensures
            w@ == Seq::<u8>::empty(),
    {
        Writer { bytes: Vec::new() }
    }

    pub fn byte(&mut self, v: u8)
        ensures
            forall|rest: Seq<u8>| #[trigger] (final(self)@ + rest) == old(self)@ + put_u8(v, rest),
    {
        self.bytes.push(v);
        assert forall|rest: Seq<u8>| #[trigger] (self@ + rest) == old(self)@ + put_u8(v, rest) by {
            assert(self@ + rest =~= old(self)@ + put_u8(v, rest));
        }
    }

    pub fn flag(&mut self, v: bool)
        ensures
            forall|rest: Seq<u8>|
                #[trigger] (final(self)@ + rest) == old(self)@ + put_bool(v, rest),
    {
        self.byte(if v { 1 } else { 0 });
    }

    fn append(&mut self, mut bytes: Vec<u8>)
        ensures
            forall|rest: Seq<u8>|
                #[trigger] (final(self)@ + rest) == old(self)@ + put_raw(bytes@, rest),
    {
        let ghost added = bytes@;
        self.bytes.append(&mut bytes);
        assert forall|rest: Seq<u8>|
            #[trigger] (self@ + rest) == old(self)@ + put_raw(added, rest) by {
            assert(self@ + rest =~= old(self)@ + put_raw(added, rest));
        }
    }

    pub fn word(&mut self, v: u16)
        ensures
            forall|rest: Seq<u8>|
                #[trigger] (final(self)@ + rest) == old(self)@ + put_number(v as nat, rest),
    {
        if let Ok(bytes) = u16_to_wire(v) {
            self.append(bytes);
        }
    }

    pub fn long(&mut self, v: u32)
        ensures
            forall|rest: Seq<u8>|
                #[trigger] (final(self)@ + rest) == old(self)@ + put_number(v as nat, rest),
    {
        if let Ok(bytes) = u32_to_wire(v) {
            self.append(bytes);
        }
    }

    pub fn quad(&mut self, v: u64)
        ensures
            forall|rest: Seq<u8>|
                #[trigger] (final(self)@ + rest) == old(self)@ + put_number(v as nat, rest),
    {
        if let Ok(bytes) = u64_to_wire(v) {
            self.append(bytes);
        }
    }

    pub fn raw(&mut self, bytes: &[u8])
        ensures
            forall|rest: Seq<u8>|
                #[trigger] (final(self)@ + rest) == old(self)@ + put_raw(bytes@, rest),
    {
        self.bytes.extend_from_slice(bytes);
        assert forall|rest: Seq<u8>|
            #[trigger] (self@ + rest) == old(self)@ + put_raw(bytes@, rest) by {
            assert(self@ + rest =~= old(self)@ + put_raw(bytes@, rest));
        }
    }

    pub fn block(&mut self, bytes: &[u8])
        ensures
            forall|rest: Seq<u8>|
                #[trigger] (final(self)@ + rest) == old(self)@ + put_block(bytes@, rest),
    {
        self.quad(bytes.len() as u64);
        self.raw(bytes);
    }
}

/// Reads a save state.
pub struct Reader<'a> {
    pub rest: &'a [u8],
    /// What went wrong first.
    pub fault: Option<DecodeError>,
}

impl<'a> View for Reader<'a> {
    type V = Tape;

    open spec fn view(&self) -> Tape {
        match self.fault {
            Some(fault) => Tape::bad(fault),
            None => Tape::at(self.rest@),
        }
    }
}

impl<'a> Reader<'a> {
    pub fn new(bytes: &'a [u8]) -> (r: Self)
        ensures
            r@ == Tape::at(bytes@),
    {
        Reader { rest: bytes, fault: None }
    }

    pub fn failed(&self) -> (failed: bool)
        ensures
            failed == !self@.good(),
    {
        self.fault.is_some()
    }

    /// Nothing further is read.
    pub fn fail(&mut self, fault: DecodeError)
        ensures
            final(self)@ == old(self)@.failing(fault),
    {
        if self.fault.is_none() {
            self.fault = Some(fault);
        }
    }

    pub fn byte(&mut self) -> (v: u8)
        ensures
            (v, final(self)@) == old(self)@.byte(),
    {
        reveal(Tape::byte);
        if self.fault.is_some() || self.rest.len() == 0 {
            self.fail(DecodeError::UnexpectedEnd);
            return 0;
        }
        let v: u8 = self.rest[0];
        self.rest = slice_subrange(self.rest, 1, self.rest.len());
        assert(self.rest@ =~= old(self).rest@.skip(1));
        v
    }

    pub fn flag(&mut self) -> (v: bool)
        ensures
            (v, final(self)@) == old(self)@.flag(),
    {
        reveal(Tape::flag);
        let b: u8 = self.byte();
        if b > 1 {
            self.fail(DecodeError::BadFlag);
        }
        b == 1
    }

    pub fn presence(&mut self) -> (v: bool)
        ensures
            (v, final(self)@) == old(self)@.presence(),
    {
        reveal(Tape::presence);
        let b: u8 = self.byte();
        if b > 1 {
            self.fail(DecodeError::BadOption);
        }
        b == 1
    }

    pub fn word(&mut self) -> (v: u16)
        ensures
            (v, final(self)@) == old(self)@.word(),
    {
        reveal(Tape::word);
        if self.fault.is_some() {
            return 0;
        }
        match u16_from_wire(self.rest) {
            Ok((v, rest)) => {
                self.rest = rest;
                v
            },
            Err(fault) => {
                self.fail(fault);
                0
            },
        }
    }

    pub fn long(&mut self) -> (v: u32)
        ensures
            (v, final(self)@) == old(self)@.long(),
    {
        reveal(Tape::long);
        if self.fault.is_some() {
            return 0;
        }
        match u32_from_wire(self.rest) {
            Ok((v, rest)) => {
                self.rest = rest;
                v
            },
            Err(fault) => {
                self.fail(fault);
                0
            },
        }
    }

    pub fn quad(&mut self) -> (v: u64)
        ensures
            (v, final(self)@) == old(self)@.quad(),
    {
        reveal(Tape::quad);
        if self.fault.is_some() {
            return 0;
        }
        match u64_from_wire(self.rest) {
            Ok((v, rest)) => {
                self.rest = rest;
                v
            },
            Err(fault) => {
                self.fail(fault);
                0
            },
        }
    }

    pub fn raw(&mut self, n: u64) -> (bytes: Vec<u8>)
        ensures
            (bytes@, final(self)@) == old(self)@.raw(n as int),
    {
        reveal(Tape::raw);
        let mut bytes: Vec<u8> = Vec::new();
        assert(bytes@ =~= Seq::<u8>::empty());
        if self.fault.is_some() || n > self.rest.len() as u64 {
            self.fail(DecodeError::UnexpectedEnd);
            return bytes;
        }
        let len: usize = n as usize;
        bytes.extend_from_slice(slice_subrange(self.rest, 0, len));
        assert(bytes@ =~= self.rest@.take(n as int));
        self.rest = slice_subrange(self.rest, len, self.rest.len());
        assert(self.rest@ =~= old(self).rest@.skip(n as int));
        bytes
    }

    pub fn array32(&mut self) -> (array: [u8; 32])
        ensures
            (array@, final(self)@) == old(self)@.array32(),
    {
        reveal(Tape::array32);
        reveal(Tape::raw);
        let bytes: Vec<u8> = self.raw(32);
        let mut array: [u8; 32] = [0u8; 32];
        if self.fault.is_some() {
            assert(array@ =~= Seq::new(32, |i: int| 0u8));
            return array;
        }
        let mut i: usize = 0;
        while i < 32
            invariant
                bytes@.len() == 32,
                i <= 32,
                forall|k: int| 0 <= k < i ==> array@[k] == bytes@[k],
            decreases 32 - i,
        {
            array[i] = bytes[i];
            i = i + 1;
        }
        assert(array@ =~= bytes@);
        array
    }

    pub fn block(&mut self) -> (bytes: Vec<u8>)
        ensures
            (bytes@, final(self)@) == old(self)@.block(),
    {
        reveal(Tape::block);
        let n: u64 = self.quad();
        self.raw(n)
    }
}

} // verus!

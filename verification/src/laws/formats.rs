//! How numbers become bytes: in save states, in fingerprints, and as sound that waits.

use vstd::prelude::*;

use crate::audio::{target_at, AudioShared, Playback};
use crate::dual::{noted, Divergence};
use crate::fingerprint::{put_bool, put_bytes, put_u16, put_u32, put_u64, put_u8};
use crate::frame::test_pattern_byte;
use crate::joypad::Buttons;
use crate::state::wire::varint;

verus! {

/// The number in groups of seven bits, lowest first.
pub open spec fn groups(bytes: Seq<u8>) -> int
    decreases bytes.len(),
{
    if bytes.len() == 0 { 0 } else { bytes[0] as int % 128 + 128 * groups(bytes.skip(1)) }
}

/// A number is saved in groups of seven bits, lowest first, as many as it needs; all but the last
/// have their top bit set.
#[verifier::rlimit(40)]
pub proof fn law_numbers_are_saved_in_groups(v: nat)
    ensures
        ({
            let bytes = varint(v);
            &&& bytes.len() >= 1
            &&& groups(bytes) == v
            &&& bytes.last() < 128
            &&& bytes.len() > 1 ==> bytes.last() != 0
            &&& forall|i: int| 0 <= i < bytes.len() - 1 ==> #[trigger] bytes[i] >= 128
        }),
    decreases v,
{
    let bytes = varint(v);
    if v < 128 {
        assert(bytes.skip(1) =~= Seq::<u8>::empty());
        reveal_with_fuel(groups, 2);
    } else {
        law_numbers_are_saved_in_groups(v / 128);
        let rest = varint(v / 128);
        assert(bytes.skip(1) =~= rest);
        assert(bytes.last() == rest.last());
        assert forall|i: int| 0 <= i < bytes.len() - 1 implies #[trigger] bytes[i] >= 128 by {
            if i > 0 {
                assert(bytes[i] == rest[i - 1]);
            }
        }
        assert(v >= 128);
        if rest.len() == 1 {
            reveal_with_fuel(groups, 2);
            assert(groups(rest) == v / 128);
            assert(rest.skip(1) =~= Seq::<u8>::empty());
        }
    }
}

/// The number that bytes stand for, lowest first.
pub open spec fn little_endian(bytes: Seq<u8>, n: int) -> int
    decreases n,
{
    if n <= 0 { 0 } else { bytes[0] + 256 * little_endian(bytes.skip(1), n - 1) }
}

/// In a fingerprint numbers have their lowest byte first, in as many bytes as their type has, flags
/// are one byte, and memory comes after its length.
#[verifier::rlimit(40)]
pub proof fn law_fingerprints_are_little_endian(
    a: u8,
    b: u16,
    c: u32,
    d: u64,
    on: bool,
    bytes: Seq<u8>,
    rest: Seq<u8>,
)
    requires
        bytes.len() < 0x1_0000_0000,
    ensures
        put_u8(a, rest) == seq![a] + rest,
        put_bool(on, rest) == seq![if on { 1u8 } else { 0 }] + rest,
        put_u16(b, rest).len() == 2 + rest.len(),
        little_endian(put_u16(b, rest), 2) == b,
        put_u16(b, rest).skip(2) == rest,
        put_u32(c, rest).len() == 4 + rest.len(),
        little_endian(put_u32(c, rest), 4) == c,
        put_u32(c, rest).skip(4) == rest,
        put_u64(d, rest).len() == 8 + rest.len(),
        little_endian(put_u64(d, rest), 8) == d,
        put_u64(d, rest).skip(8) == rest,
        little_endian(put_bytes(bytes, rest), 4) == bytes.len(),
        put_bytes(bytes, rest).skip(4) == bytes + rest,
{
    lemma_two(b, rest);
    lemma_four(c, rest);
    lemma_four(bytes.len() as u32, bytes + rest);
    let low = (d % 0x1_0000_0000) as u32;
    let high = (d / 0x1_0000_0000) as u32;
    lemma_four(high, rest);
    lemma_four(low, put_u32(high, rest));
    lemma_joined_bytes(put_u64(d, rest), 4, 4);
    assert(put_u64(d, rest).skip(8) =~= put_u64(d, rest).skip(4).skip(4));
    assert(power256(4) == 0x1_0000_0000) by {
        reveal_with_fuel(power256, 5);
    }
}

/// 256 to the power `n`.
pub open spec fn power256(n: int) -> int
    decreases n,
{
    if n <= 0 { 1 } else { 256 * power256(n - 1) }
}

proof fn lemma_joined_bytes(bytes: Seq<u8>, m: int, n: int)
    requires
        0 <= m,
        0 <= n,
        m + n <= bytes.len(),
    ensures
        little_endian(bytes, m + n) == little_endian(bytes, m) + power256(m) * little_endian(
            bytes.skip(m),
            n,
        ),
    decreases m,
{
    if m == 0 {
        assert(bytes.skip(0) =~= bytes);
    } else {
        lemma_joined_bytes(bytes.skip(1), m - 1, n);
        assert(bytes.skip(1).skip(m - 1) =~= bytes.skip(m));
        let low = little_endian(bytes.skip(1), m - 1);
        let high = little_endian(bytes.skip(m), n);
        assert(256 * (low + power256(m - 1) * high) == 256 * low + power256(m) * high)
            by (nonlinear_arith)
            requires
                power256(m) == 256 * power256(m - 1),
        ;
    }
}

#[verifier::rlimit(40)]
proof fn lemma_two(v: u16, rest: Seq<u8>)
    ensures
        put_u16(v, rest).len() == 2 + rest.len(),
        little_endian(put_u16(v, rest), 2) == v,
        put_u16(v, rest).skip(2) == rest,
{
    let bytes = put_u16(v, rest);
    reveal_with_fuel(little_endian, 3);
    assert(bytes[0] == v % 256);
    assert(bytes.skip(1)[0] == v / 256);
    assert(bytes.skip(2) =~= rest);
}

#[verifier::rlimit(40)]
proof fn lemma_four(v: u32, rest: Seq<u8>)
    ensures
        put_u32(v, rest).len() == 4 + rest.len(),
        little_endian(put_u32(v, rest), 4) == v,
        put_u32(v, rest).skip(4) == rest,
{
    let low = (v % 0x1_0000) as u16;
    let high = (v / 0x1_0000) as u16;
    lemma_two(high, rest);
    lemma_two(low, put_u16(high, rest));
    let bytes = put_u32(v, rest);
    lemma_joined_bytes(bytes, 2, 2);
    assert(bytes.skip(4) =~= bytes.skip(2).skip(2));
    assert(power256(2) == 0x1_0000) by {
        reveal_with_fuel(power256, 3);
    }
    assert(little_endian(bytes, 4) == low + 0x1_0000 * high);
    assert(v == low + 0x1_0000 * high);
}

/// The first difference between two machines is the one that is reported, with its frame, whatever
/// follows.
pub proof fn law_the_first_difference_stays(first: Option<Divergence>, frame: u64, a: u64, b: u64)
    ensures
        first is Some ==> noted(first, frame, a, b) == first,
        first is None && a == b ==> noted(first, frame, a, b) is None,
        first is None && a != b ==> noted(first, frame, a, b) == Some(Divergence { frame, a, b }),
{
}

/// The target is fifty milliseconds of sound, to the nearest sample, and three times that may wait.
pub proof fn law_the_target_is_fifty_milliseconds(shared: AudioShared)
    ensures
        ({
            let target = target_at(shared.device_rate) as int;
            &&& -500 <= 50 * shared.device_rate - 1000 * target <= 500
            &&& shared.cap() == 3 * target
        }),
{
}

/// Sound begins when the target has gathered, from the bottom of its fade, and goes on however
/// little waits, until it runs dry or is interrupted. A paused machine is never heard.
pub proof fn law_sound_begins_and_ends(p: Playback, shared: AudioShared, slots: nat)
    ensures
        shared.paused ==> !p.heard(shared, slots),
        !shared.paused && p.playing ==> p.heard(shared, slots) && p.begun(shared, slots) == p,
        !shared.paused && !p.playing ==> p.heard(shared, slots) == (slots > 0 && slots
            >= target_at(shared.device_rate)),
        !p.playing && p.heard(shared, slots) ==> p.begun(shared, slots).playing && p.begun(
            shared,
            slots,
        ).fade == 0,
        !p.ended(true).playing,
        p.ended(false) == p,
        p.heeding(shared).playing == (p.playing && !shared.paused && shared.flush_generation
            == p.flush_seen),
        p.heeding(shared).flush_seen == shared.flush_generation,
{
}

/// The test picture moves one pixel left with each frame in red and blue, and one up with every
/// second frame in green, and shows the buttons in its corner: left in red, up in green, right and
/// down in blue.
#[verifier::rlimit(40)]
pub proof fn law_the_test_picture_moves(frame: u64, buttons: Buttons, x: int, y: int)
    requires
        0 <= x < 256,
        0 <= y < 240,
    ensures
        ({
            let at = 4 * (256 * y + x);
            let f = frame as int % 256;
            let red = test_pattern_byte(frame, buttons, at);
            let green = test_pattern_byte(frame, buttons, at + 1);
            let blue = test_pattern_byte(frame, buttons, at + 2);
            let corner = x < 32 && y < 32;
            &&& test_pattern_byte(frame, buttons, at + 3) == 255
            &&& !corner ==> red == (x + f) % 256 && green == (y + f / 2) % 256 && blue == ((x + y)
                / 2 + f) % 256
            &&& corner ==> {
                &&& red == if buttons.has(Buttons { raw: 64 }) { 255int } else { 48 }
                &&& green == if buttons.has(Buttons { raw: 16 }) { 255int } else { 48 }
                &&& blue == if buttons.has(Buttons { raw: 128 }) || buttons.has(
                    Buttons { raw: 32 },
                ) { 255int } else { 48 }
            }
        }),
{
    let at = 4 * (256 * y + x);
    assert(at / 4 == 256 * y + x && (at + 1) / 4 == 256 * y + x && (at + 2) / 4 == 256 * y + x && (at
        + 3) / 4 == 256 * y + x);
    assert((256 * y + x) % 256 == x);
    assert(at / 1024 == y && (at + 1) / 1024 == y && (at + 2) / 1024 == y && (at + 3) / 1024 == y);
    assert(at % 4 == 0 && (at + 1) % 4 == 1 && (at + 2) % 4 == 2 && (at + 3) % 4 == 3);
}

} // verus!

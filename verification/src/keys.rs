//! The keyboard: which key is which button, for both players.
//!
//! | | player 1 | player 2 |
//! |---|---|---|
//! | direction | arrows | W A S D |
//! | B / A | Z / X | F / G |
//! | Select / Start | right Shift / Enter | R / T |
//!
//! The players share no key, and neither uses a key of the application.

use vstd::prelude::*;

use crate::joypad::Buttons;

verus! {

/// The keys that mean something.
#[derive(Debug, Clone, Copy, PartialEq, Eq, Structural)]
pub enum Key {
    ArrowUp,
    ArrowDown,
    ArrowLeft,
    ArrowRight,
    Enter,
    ShiftRight,
    A,
    D,
    F,
    G,
    R,
    S,
    T,
    W,
    X,
    Z,
    F5,
    F9,
}

/// The keys of a player, each with the bit of its button.
pub type KeyMap = [(Key, u8); 8];

pub const PLAYER1_KEYS: KeyMap = [
    (Key::ArrowUp, 0x10),
    (Key::ArrowDown, 0x20),
    (Key::ArrowLeft, 0x40),
    (Key::ArrowRight, 0x80),
    (Key::Z, 0x02),
    (Key::X, 0x01),
    (Key::Enter, 0x08),
    (Key::ShiftRight, 0x04),
];

pub const PLAYER2_KEYS: KeyMap = [
    (Key::W, 0x10),
    (Key::S, 0x20),
    (Key::A, 0x40),
    (Key::D, 0x80),
    (Key::F, 0x02),
    (Key::G, 0x01),
    (Key::R, 0x04),
    (Key::T, 0x08),
];

/// Keeps a save state in memory.
pub const HOTKEY_SAVE_STATE: Key = Key::F5;

/// Restores the save state in memory.
pub const HOTKEY_LOAD_STATE: Key = Key::F9;

/// The buttons of the keys that are down.
pub open spec fn pressed(map: Seq<(Key, u8)>, down: spec_fn(Key) -> bool) -> Buttons
    decreases map.len(),
{
    if map.len() == 0 {
        Buttons { raw: 0 }
    } else {
        pressed(map.drop_last(), down).with(Buttons { raw: map.last().1 }, down(map.last().0))
    }
}

/// The key is down, as far as the closure says the same each time.
pub open spec fn tells<F: Fn(Key) -> bool>(is_down: F, down: spec_fn(Key) -> bool) -> bool {
    forall|key: Key, answer: bool|
        #[trigger] call_ensures(is_down, (key,), answer) ==> answer == down(key)
}

/// The buttons of a player, where `is_down` says which keys are down.
pub fn buttons_from_keys<F: Fn(Key) -> bool>(map: &KeyMap, is_down: F) -> (buttons: Buttons)
    requires
        forall|key: Key| #[trigger] call_requires(is_down, (key,)),
    ensures
        forall|down: spec_fn(Key) -> bool|
            tells(is_down, down) ==> buttons == #[trigger] pressed(map@, down),
{
    let mut buttons: Buttons = Buttons::empty();
    let mut i: usize = 0;
    assert(map@.take(0) =~= Seq::empty());
    while i < 8
        invariant
            i <= 8,
            forall|key: Key| #[trigger] call_requires(is_down, (key,)),
            forall|down: spec_fn(Key) -> bool|
                tells(is_down, down) ==> buttons == #[trigger] pressed(map@.take(i as int), down),
        decreases 8 - i,
    {
        let (key, bit): (Key, u8) = map[i];
        let down_now: bool = is_down(key);
        let ghost before = map@.take(i as int);
        assert(map@.take(i + 1).drop_last() =~= before);
        let ghost held = buttons;
        buttons.set(Buttons::from_bits_truncate(bit), down_now);
        i = i + 1;
        assert forall|down: spec_fn(Key) -> bool| tells(is_down, down) implies buttons
            == #[trigger] pressed(map@.take(i as int), down) by {
            assert(held == pressed(before, down));
        }
    }
    assert(map@.take(8) =~= map@);
    buttons
}

proof fn lemma_bit_set(raw: u8, bit: u8, other: u8)
    by (bit_vector)
    ensures
        (raw | bit) & bit == bit,
        (raw & !bit) & bit == 0,
        bit & other == 0 ==> (raw | other) & bit == raw & bit,
        bit & other == 0 ==> (raw & !other) & bit == raw & bit,
{
}

/// A key that is set last, or not touched any more.
proof fn lemma_set_and_kept(buttons: Buttons, bit: u8, other: u8, on: bool, also: bool)
    ensures
        buttons.with(Buttons { raw: bit }, on).raw & bit == if on { bit } else { 0 },
        bit & other == 0 ==> buttons.with(Buttons { raw: other }, also).raw & bit == buttons.raw & bit,
{
    lemma_bit_set(buttons.raw, bit, other);
}

/// The keys of a map stand for different buttons.
pub open spec fn apart(map: Seq<(Key, u8)>) -> bool {
    forall|i: int, j: int|
        0 <= i < map.len() && 0 <= j < map.len() && i != j ==> (#[trigger] map[i]).1 & (
        #[trigger] map[j]).1 == 0
}

/// With one key for each button, a button is pressed exactly when its key is down.
pub proof fn law_a_button_follows_its_key(
    map: Seq<(Key, u8)>,
    down: spec_fn(Key) -> bool,
    i: int,
)
    requires
        apart(map),
        0 <= i < map.len(),
    ensures
        pressed(map, down).raw & map[i].1 == if down(map[i].0) { map[i].1 } else { 0 },
    decreases map.len(),
{
    let last = map.len() - 1;
    let before = pressed(map.drop_last(), down);
    if i == last {
        lemma_set_and_kept(before, map[i].1, 0, down(map[i].0), false);
    } else {
        assert(map[i].1 & map[last].1 == 0);
        lemma_set_and_kept(before, map[i].1, map[last].1, false, down(map[last].0));
        assert(apart(map.drop_last())) by {
            assert forall|j: int, k: int|
                0 <= j < last && 0 <= k < last && j != k implies (
            #[trigger] map.drop_last()[j]).1 & (#[trigger] map.drop_last()[k]).1 == 0 by {
                assert(map[j].1 & map[k].1 == 0);
            }
        }
        law_a_button_follows_its_key(map.drop_last(), down, i);
    }
}

/// The keys of both players stand for different buttons.
pub proof fn law_the_maps_keep_their_buttons_apart()
    ensures
        apart(PLAYER1_KEYS@),
        apart(PLAYER2_KEYS@),
{
    assert(0x10u8 & 0x20 == 0 && 0x10u8 & 0x40 == 0 && 0x10u8 & 0x80 == 0 && 0x10u8 & 0x02 == 0
        && 0x10u8 & 0x01 == 0 && 0x10u8 & 0x08 == 0 && 0x10u8 & 0x04 == 0 && 0x20u8 & 0x40 == 0
        && 0x20u8 & 0x80 == 0 && 0x20u8 & 0x02 == 0 && 0x20u8 & 0x01 == 0 && 0x20u8 & 0x08 == 0
        && 0x20u8 & 0x04 == 0 && 0x40u8 & 0x80 == 0 && 0x40u8 & 0x02 == 0 && 0x40u8 & 0x01 == 0
        && 0x40u8 & 0x08 == 0 && 0x40u8 & 0x04 == 0 && 0x80u8 & 0x02 == 0 && 0x80u8 & 0x01 == 0
        && 0x80u8 & 0x08 == 0 && 0x80u8 & 0x04 == 0 && 0x02u8 & 0x01 == 0 && 0x02u8 & 0x08 == 0
        && 0x02u8 & 0x04 == 0 && 0x01u8 & 0x08 == 0 && 0x01u8 & 0x04 == 0 && 0x08u8 & 0x04 == 0)
        by (bit_vector);
    assert(forall|a: u8, b: u8| #[trigger] (a & b) == b & a) by (bit_vector);
}

} // verus!

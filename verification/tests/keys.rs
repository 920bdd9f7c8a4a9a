//! The keyboard.

use nes_core::joypad::Buttons;
use nes_core::keys::{
    buttons_from_keys, Key, HOTKEY_LOAD_STATE, HOTKEY_SAVE_STATE, PLAYER1_KEYS, PLAYER2_KEYS,
};

const APP_HOTKEYS: [Key; 2] = [HOTKEY_SAVE_STATE, HOTKEY_LOAD_STATE];

#[test]
fn the_two_players_share_no_physical_key() {
    for (k1, _) in PLAYER1_KEYS {
        assert!(
            PLAYER2_KEYS.iter().all(|&(k2, _)| k1 != k2),
            "{k1:?} 同時被兩位玩家使用"
        );
    }
}

#[test]
fn joypad_keys_do_not_shadow_app_hotkeys() {
    for map in [PLAYER1_KEYS, PLAYER2_KEYS] {
        for (key, _) in map {
            assert!(!APP_HOTKEYS.contains(&key), "{key:?} 是應用程式快捷鍵");
        }
    }
}

#[test]
fn each_map_covers_all_eight_buttons_exactly_once() {
    for map in [PLAYER1_KEYS, PLAYER2_KEYS] {
        let mut all = Buttons::empty();
        for (_, bit) in map {
            let button = Buttons::from_bits_truncate(bit);
            assert!(!all.intersects(button), "{button:?} 被對應了兩次");
            all = all | button;
        }
        assert_eq!(all, Buttons::all());
    }
}

#[test]
fn each_map_uses_distinct_keys() {
    for map in [PLAYER1_KEYS, PLAYER2_KEYS] {
        for (i, (a, _)) in map.iter().enumerate() {
            assert!(map[i + 1..].iter().all(|(b, _)| a != b));
        }
    }
}

#[test]
fn buttons_follow_the_keys_that_are_down() {
    let down = [Key::W, Key::G, Key::T];
    let p2 = buttons_from_keys(&PLAYER2_KEYS, |k| down.contains(&k));
    assert_eq!(p2, Buttons::up() | Buttons::a() | Buttons::start());
    let p1 = buttons_from_keys(&PLAYER1_KEYS, |k| down.contains(&k));
    assert_eq!(p1, Buttons::empty());
}

#[test]
fn each_key_presses_its_own_button_and_no_other() {
    for map in [PLAYER1_KEYS, PLAYER2_KEYS] {
        for (key, bit) in map {
            assert_eq!(buttons_from_keys(&map, |k| k == key).bits(), bit);
            assert_eq!(buttons_from_keys(&map, |k| k != key).bits(), !bit);
        }
    }
}

//! Pictures, colours, controllers and opcodes.

use nes_core::cpu::opcodes::opcode_info;
use nes_core::frame::{FrameBuffer, HEIGHT, WIDTH};
use nes_core::joypad::{Buttons, Joypad};
use nes_core::ppu::palette::to_rgba;

#[test]
fn blank_frame_has_correct_size() {
    let fb = FrameBuffer::blank();
    assert_eq!(fb.as_bytes().len(), WIDTH * HEIGHT * 4);
}

#[test]
fn render_test_pattern_is_pure_function_of_state_and_input() {
    let mut a = FrameBuffer::blank();
    let mut b = FrameBuffer::blank();
    let input = [Buttons::left(), Buttons::empty()];
    a.render_test_pattern(42, input);
    b.render_test_pattern(42, input);
    assert_eq!(a.as_bytes(), b.as_bytes());
}

#[test]
fn different_input_changes_indicator_block() {
    let mut a = FrameBuffer::blank();
    let mut b = FrameBuffer::blank();
    a.render_test_pattern(1, [Buttons::empty(), Buttons::empty()]);
    b.render_test_pattern(1, [Buttons::left(), Buttons::empty()]);
    assert_ne!(a.as_bytes(), b.as_bytes());
}

#[test]
fn palette_has_expected_anchor_colors() {
    assert_eq!(to_rgba(0x00, false, 0), [84, 84, 84, 255]);
    assert_eq!(to_rgba(0x0F, false, 0), [0, 0, 0, 255]);
    assert_eq!(to_rgba(0x30, false, 0), [236, 238, 236, 255]);
}

#[test]
fn grayscale_masks_to_gray_column() {
    // $16（紅）在灰階模式下變成 $10。
    assert_eq!(to_rgba(0x16, true, 0), to_rgba(0x10, false, 0));
}

#[test]
fn emphasis_attenuates_the_other_channels() {
    let plain = to_rgba(0x30, false, 0);
    let red = to_rgba(0x30, false, 0b001);
    assert_eq!(red[0], plain[0]);
    assert!(red[1] < plain[1] && red[2] < plain[2]);
}

#[test]
fn strobe_then_reads_shift_out_buttons_in_order_then_ones() {
    let mut pad = Joypad {
        state: Buttons::a() | Buttons::start() | Buttons::right(),
        ..Joypad::default()
    };
    pad.write_strobe(true);
    pad.write_strobe(false);

    let bits: Vec<u8> = (0..8).map(|_| pad.read()).collect();
    // A, B, Select, Start, Up, Down, Left, Right
    assert_eq!(bits, [1, 0, 0, 1, 0, 0, 0, 1]);
    assert_eq!(pad.read(), 1, "8 次之後回傳 1");
    assert_eq!(pad.read(), 1);
}

#[test]
fn strobe_high_keeps_returning_a_button() {
    let mut pad = Joypad {
        state: Buttons::a(),
        ..Joypad::default()
    };
    pad.write_strobe(true);
    assert_eq!(pad.read(), 1);
    assert_eq!(pad.read(), 1);
    pad.state = Buttons::empty();
    assert_eq!(pad.read(), 0);
}

#[test]
fn peek_does_not_shift() {
    let mut pad = Joypad {
        state: Buttons::b(),
        ..Joypad::default()
    };
    pad.write_strobe(true);
    pad.write_strobe(false);
    assert_eq!(pad.peek(), 0); // A 沒按
    assert_eq!(pad.peek(), 0);
    assert_eq!(pad.read(), 0);
    assert_eq!(pad.read(), 1); // B 有按
}

#[test]
fn buttons_default_is_empty() {
    assert_eq!(Buttons::default(), Buttons::empty());
}

#[test]
fn buttons_compose_with_bitor() {
    let combo = Buttons::left() | Buttons::a();
    assert!(combo.contains(Buttons::left()));
    assert!(combo.contains(Buttons::a()));
    assert!(!combo.contains(Buttons::right()));
}

#[test]
fn every_opcode_has_at_least_one_byte() {
    for opcode in 0..=255u8 {
        assert!(opcode_info(opcode).bytes >= 1);
    }
}

#[test]
fn known_official_opcodes_are_marked_official() {
    assert!(opcode_info(0xA9).official); // LDA #imm
    assert!(opcode_info(0x4C).official); // JMP abs
    assert!(!opcode_info(0xA7).official); // LAX zp
    assert!(!opcode_info(0x02).official); // JAM
}

#[test]
fn names_tell_mnemonics_apart() {
    let all: Vec<_> = (0..=255u8).map(|opcode| opcode_info(opcode).mnemonic).collect();
    for a in &all {
        let name = a.as_str();
        assert!(name.len() == 3 && name.bytes().all(|b| b.is_ascii_uppercase()));
        assert_eq!(name, format!("{a:?}").to_uppercase());
        for b in &all {
            assert_eq!(a == b, name == b.as_str());
        }
    }
}

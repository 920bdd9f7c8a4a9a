//! The colours of palette values, and what PPUMASK does to them.

use vstd::prelude::*;

use super::words::{bit, lemma_fields, lemma_shifts, one_if};
use crate::ppu::palette::{rgba, SYSTEM_PALETTE};

verus! {

/// The 64 colours as numbers, red, green and blue from high to low.
pub open spec fn colors() -> Seq<u32> {
    seq![
        0x54_54_54u32, 0x00_1E_74, 0x08_10_90, 0x30_00_88,
        0x44_00_64, 0x5C_00_30, 0x54_04_00, 0x3C_18_00,
        0x20_2A_00, 0x08_3A_00, 0x00_40_00, 0x00_3C_00,
        0x00_32_3C, 0x00_00_00, 0x00_00_00, 0x00_00_00,
        0x98_96_98, 0x08_4C_C4, 0x30_32_EC, 0x5C_1E_E4,
        0x88_14_B0, 0xA0_14_64, 0x98_22_20, 0x78_3C_00,
        0x54_5A_00, 0x28_72_00, 0x08_7C_00, 0x00_76_28,
        0x00_66_78, 0x00_00_00, 0x00_00_00, 0x00_00_00,
        0xEC_EE_EC, 0x4C_9A_EC, 0x78_7C_EC, 0xB0_62_EC,
        0xE4_54_EC, 0xEC_58_B4, 0xEC_6A_64, 0xD4_88_20,
        0xA0_AA_00, 0x74_C4_00, 0x4C_D0_20, 0x38_CC_6C,
        0x38_B4_CC, 0x3C_3C_3C, 0x00_00_00, 0x00_00_00,
        0xEC_EE_EC, 0xA8_CC_EC, 0xBC_BC_EC, 0xD4_B2_EC,
        0xEC_AE_EC, 0xEC_AE_D4, 0xEC_B4_B0, 0xE4_C4_90,
        0xCC_D2_78, 0xB4_DE_78, 0xA8_E2_90, 0x98_E2_B4,
        0xA0_D6_E4, 0xA0_A2_A0, 0x00_00_00, 0x00_00_00,
    ]
}

/// Without emphasis and grayscale a value shows the colour of its low six bits, and is opaque.
#[verifier::rlimit(40)]
pub proof fn law_values_show_their_color(value: u8)
    ensures
        ({
            let shown = rgba(value, false, 0);
            let color = colors()[value as int % 64] as int;
            &&& shown.len() == 4
            &&& shown[0] == color / 0x1_0000
            &&& shown[1] == color / 0x100 % 0x100
            &&& shown[2] == color % 0x100
            &&& shown[3] == 255
        }),
{
    lemma_plain(value, false);
    lemma_color(value as int % 64);
}

#[verifier::rlimit(40)]
proof fn lemma_color(i: int)
    requires
        0 <= i < 64,
    ensures
        ({
            let color = colors()[i] as int;
            let rgb = SYSTEM_PALETTE@[i]@;
            &&& rgb[0] == color / 0x1_0000
            &&& rgb[1] == color / 0x100 % 0x100
            &&& rgb[2] == color % 0x100
        }),
{
}

#[verifier::rlimit(40)]
proof fn lemma_plain(value: u8, gray: bool)
    ensures
        ({
            let index = if gray { 16 * (value as int / 16 % 4) } else { value as int % 64 };
            let rgb = SYSTEM_PALETTE@[index]@;
            rgba(value, gray, 0) =~= seq![rgb[0], rgb[1], rgb[2], 0xFFu8]
        }),
{
    assert(0u8 & 1 == 0 && 0u8 & 2 == 0 && 0u8 & 4 == 0) by {
        lemma_fields(0);
    }
    assert(value & 63 == value % 64) by {
        lemma_fields(value);
    }
    let index = value & 63;
    assert(index & 0x30 == 16 * (index / 16 % 4)) by {
        lemma_fields(index);
    }
    assert(value % 64 / 16 % 4 == value / 16 % 4);
}

/// Grayscale shows the gray of the value's row: the first colour of it.
#[verifier::rlimit(40)]
pub proof fn law_grayscale_shows_grays(value: u8, emphasis: u8)
    ensures
        rgba(value, true, emphasis) == rgba((16 * (value / 16 % 4)) as u8, false, emphasis),
        rgba(value, false, emphasis) == rgba(value % 64, false, emphasis),
{
    assert(value & 63 == value % 64) by {
        lemma_fields(value);
    }
    let index = value & 63;
    assert(index & 0x30 == 16 * (index / 16 % 4)) by {
        lemma_fields(index);
    }
    assert(value % 64 / 16 % 4 == value / 16 % 4);
    let gray = (16 * (value / 16 % 4)) as u8;
    assert(gray & 63 == gray) by {
        lemma_fields(gray);
    }
    assert((value % 64) & 63 == value % 64) by {
        lemma_fields(value % 64);
    }
    assert(rgba(value, true, emphasis) =~= rgba(gray, false, emphasis));
}

/// Three quarters of `v`, `n` times over.
pub open spec fn quartered(v: int, n: int) -> int
    decreases n,
{
    if n <= 0 { v } else { quartered(v, n - 1) * 3 / 4 }
}

/// Bits 0, 1 and 2 of the emphasis are for red, green and blue: each dims the other two colours by a
/// quarter.
#[verifier::rlimit(40)]
pub proof fn law_emphasis_dims_the_others(value: u8, gray: bool, emphasis: u8)
    ensures
        ({
            let plain = rgba(value, gray, 0);
            let shown = rgba(value, gray, emphasis);
            let red = one_if(bit(emphasis, 0));
            let green = one_if(bit(emphasis, 1));
            let blue = one_if(bit(emphasis, 2));
            &&& shown[0] == quartered(plain[0] as int, green + blue)
            &&& shown[1] == quartered(plain[1] as int, red + blue)
            &&& shown[2] == quartered(plain[2] as int, red + green)
            &&& shown[3] == 255
        }),
{
    lemma_shifts(emphasis);
    lemma_plain(value, gray);
    assert(value & 63 == value % 64) by {
        lemma_fields(value);
    }
    let index = value & 63;
    assert(index & 0x30 == 16 * (index / 16 % 4)) by {
        lemma_fields(index);
    }
    assert(value % 64 / 16 % 4 == value / 16 % 4);
    reveal_with_fuel(quartered, 3);
}

} // verus!

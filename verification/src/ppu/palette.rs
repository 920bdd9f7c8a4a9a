//! The colours of the NTSC picture generator.

use vstd::prelude::*;


verus! {

/// The 64 colours, by the 6-bit value in palette memory.
pub const SYSTEM_PALETTE: [[u8; 3]; 64] = [
    [84, 84, 84], [0, 30, 116], [8, 16, 144], [48, 0, 136],
    [68, 0, 100], [92, 0, 48], [84, 4, 0], [60, 24, 0],
    [32, 42, 0], [8, 58, 0], [0, 64, 0], [0, 60, 0],
    [0, 50, 60], [0, 0, 0], [0, 0, 0], [0, 0, 0],
    [152, 150, 152], [8, 76, 196], [48, 50, 236], [92, 30, 228],
    [136, 20, 176], [160, 20, 100], [152, 34, 32], [120, 60, 0],
    [84, 90, 0], [40, 114, 0], [8, 124, 0], [0, 118, 40],
    [0, 102, 120], [0, 0, 0], [0, 0, 0], [0, 0, 0],
    [236, 238, 236], [76, 154, 236], [120, 124, 236], [176, 98, 236],
    [228, 84, 236], [236, 88, 180], [236, 106, 100], [212, 136, 32],
    [160, 170, 0], [116, 196, 0], [76, 208, 32], [56, 204, 108],
    [56, 180, 204], [60, 60, 60], [0, 0, 0], [0, 0, 0],
    [236, 238, 236], [168, 204, 236], [188, 188, 236], [212, 178, 236],
    [236, 174, 236], [236, 174, 212], [236, 180, 176], [228, 196, 144],
    [204, 210, 120], [180, 222, 120], [168, 226, 144], [152, 226, 180],
    [160, 214, 228], [160, 162, 160], [0, 0, 0], [0, 0, 0],
];

/// Three quarters of `v`, as often as `first` and `second` say.
pub open spec fn dimmed(v: u8, first: bool, second: bool) -> u8 {
    let once = if first { (v * 3 / 4) as u8 } else { v };
    if second { (once * 3 / 4) as u8 } else { once }
}

fn dim(v: u8, first: bool, second: bool) -> (out: u8)
    ensures
        out == dimmed(v, first, second),
{
    let once: u8 = if first { (v as u16 * 3 / 4) as u8 } else { v };
    if second {
        (once as u16 * 3 / 4) as u8
    } else {
        once
    }
}

/// The colour that a palette value shows. Grayscale leaves only the gray column. Each of the
/// emphasis bits (red, green, blue) dims the two other components by a quarter.
pub open spec fn rgba(value: u8, grayscale: bool, emphasis: u8) -> Seq<u8> {
    let index = value & 63;
    let column = if grayscale { index & 0x30 } else { index };
    let rgb = SYSTEM_PALETTE@[column as int]@;
    let red = emphasis & 1 != 0;
    let green = emphasis & 2 != 0;
    let blue = emphasis & 4 != 0;
    seq![dimmed(rgb[0], green, blue), dimmed(rgb[1], red, blue), dimmed(rgb[2], red, green), 0xFFu8]
}

/// Converts a palette value to red, green, blue and alpha.
pub fn to_rgba(value: u8, grayscale: bool, emphasis: u8) -> (color: [u8; 4])
    ensures
        color@ == rgba(value, grayscale, emphasis),
{
    assert(value & 63 <= 63 && (value & 63) & 0x30 <= 63) by (bit_vector);
    let mut index: u8 = value & 63;
    if grayscale {
        index = index & 0x30;
    }
    let rgb: [u8; 3] = SYSTEM_PALETTE[index as usize];
    let red: bool = emphasis & 1 != 0;
    let green: bool = emphasis & 2 != 0;
    let blue: bool = emphasis & 4 != 0;
    let color: [u8; 4] = [
        dim(rgb[0], green, blue),
        dim(rgb[1], red, blue),
        dim(rgb[2], red, green),
        0xFF,
    ];
    assert(color@ =~= rgba(value, grayscale, emphasis));
    color
}

} // verus!

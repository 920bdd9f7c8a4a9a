//! The picture: 256 by 240 pixels of four bytes each.

use vstd::prelude::*;

use crate::fingerprint::{xxh3_64, xxh3_64_of};
use crate::joypad::Buttons;

verus! {

pub const WIDTH: usize = 256;

pub const HEIGHT: usize = 240;

/// The number of bytes of a picture.
pub open spec fn picture_len() -> nat {
    245760
}

/// A picture, row by row, in red, green, blue and alpha.
#[derive(Debug, Clone)]
pub struct FrameBuffer {
    pub pixels: Vec<u8>,
}

impl View for FrameBuffer {
    type V = Seq<u8>;

    open spec fn view(&self) -> Seq<u8> {
        self.pixels@
    }
}

impl Default for FrameBuffer {
    fn default() -> (buffer: Self)
        ensures
            buffer@ == blank_picture(),
    {
        FrameBuffer::blank()
    }
}

pub open spec fn blank_picture() -> Seq<u8> {
    Seq::new(picture_len(), |i: int| 0u8)
}

/// The picture with row `y` replaced by the colours of `row`.
pub open spec fn with_row(picture: Seq<u8>, y: int, row: Seq<Seq<u8>>) -> Seq<u8> {
    Seq::new(
        picture.len(),
        |i: int| if y * 1024 <= i < (y + 1) * 1024 { row[(i - y * 1024) / 4][i % 4] } else { picture[i] },
    )
}

/// One pixel of the test picture: a gradient that moves with the frame count, and a block of 32 by
/// 32 pixels in the top left corner that shows player 1's direction buttons.
pub open spec fn test_pattern_pixel(frame_count: u64, buttons: Buttons, x: int, y: int) -> Seq<u8> {
    let shift = (frame_count % 256) as int;
    if x < 32 && y < 32 {
        indicator(buttons)
    } else {
        seq![
            ((x + shift) % 256) as u8,
            ((y + shift / 2) % 256) as u8,
            (((x + y) / 2 + shift) % 256) as u8,
            0xFFu8,
        ]
    }
}

/// One byte of the test picture.
pub open spec fn test_pattern_byte(frame_count: u64, buttons: Buttons, i: int) -> u8 {
    test_pattern_pixel(frame_count, buttons, i / 4 % 256, i / 1024)[i % 4]
}

/// Left lights red, up lights green, right or down lights blue.
pub open spec fn indicator(buttons: Buttons) -> Seq<u8> {
    seq![
        if buttons.has(Buttons { raw: 0x40 }) { 0xFFu8 } else { 0x30 },
        if buttons.has(Buttons { raw: 0x10 }) { 0xFFu8 } else { 0x30 },
        if buttons.has(Buttons { raw: 0x80 }) || buttons.has(Buttons { raw: 0x20 }) {
            0xFFu8
        } else {
            0x30
        },
        0xFFu8,
    ]
}

impl FrameBuffer {
    /// All black.
    pub fn blank() -> (buffer: Self)
        ensures
            buffer@ == blank_picture(),
    {
        let pixels: Vec<u8> = vec![0u8; WIDTH * HEIGHT * 4];
        assert(pixels@ =~= blank_picture());
        FrameBuffer { pixels }
    }

    pub fn as_bytes(&self) -> (bytes: &[u8])
        ensures
            bytes@ == self@,
    {
        self.pixels.as_slice()
    }

    /// The xxh3-64 hash of the picture.
    pub fn hash64(&self) -> (hash: u64)
        ensures
            hash == xxh3_64_of(self@),
    {
        xxh3_64(self.pixels.as_slice())
    }

    /// Paints row `y` with the colours of `row`.
    pub fn paint_row(&mut self, y: usize, row: &[[u8; 4]; 256])
        requires
            old(self)@.len() == picture_len(),
            y < 240,
        ensures
            final(self)@ == with_row(old(self)@, y as int, Seq::new(256, |x: int| row@[x]@)),
    {
        let ghost colours = Seq::new(256, |x: int| row@[x]@);
        for x in 0..256usize
            invariant
                y < 240,
                colours == Seq::new(256, |x: int| row@[x]@),
                self@.len() == picture_len(),
                old(self)@.len() == picture_len(),
                forall|i: int|
                    0 <= i < picture_len() ==> #[trigger] self@[i] == if y * 1024 <= i < y * 1024 + x
                        * 4 {
                        colours[(i - y * 1024) / 4][i % 4]
                    } else {
                        old(self)@[i]
                    },
        {
            let colour: [u8; 4] = row[x];
            self.set_pixel(x, y, colour);
        }
        assert(self@ =~= with_row(old(self)@, y as int, colours));
    }

    fn set_pixel(&mut self, x: usize, y: usize, rgba: [u8; 4])
        requires
            old(self)@.len() == picture_len(),
            x < 256,
            y < 240,
        ensures
            final(self)@.len() == picture_len(),
            forall|i: int|
                0 <= i < picture_len() ==> #[trigger] final(self)@[i] == if y * 1024 + x * 4 <= i < y
                    * 1024 + x * 4 + 4 {
                    rgba@[i % 4]
                } else {
                    old(self)@[i]
                },
    {
        let i: usize = (y * WIDTH + x) * 4;
        self.pixels.set(i, rgba[0]);
        self.pixels.set(i + 1, rgba[1]);
        self.pixels.set(i + 2, rgba[2]);
        self.pixels.set(i + 3, rgba[3]);
    }

    /// Draws a picture that is a function of the frame count and the input alone, to try the way
    /// from the keyboard to the screen.
    pub fn render_test_pattern(&mut self, frame_count: u64, input: [Buttons; 2])
        requires
            old(self)@.len() == picture_len(),
        ensures
            final(self)@ == Seq::new(
                picture_len(),
                |i: int| test_pattern_byte(frame_count, input@[0], i),
            ),
    {
        let shift: usize = (frame_count % 256) as usize;
        let colour: [u8; 4] = indicator_color(input[0]);
        for y in 0..240usize
            invariant
                shift == frame_count % 256,
                colour@ == indicator(input@[0]),
                self@.len() == picture_len(),
                forall|i: int|
                    0 <= i < y * 1024 ==> #[trigger] self@[i] == test_pattern_byte(
                        frame_count,
                        input@[0],
                        i,
                    ),
        {
            for x in 0..256usize
                invariant
                    y < 240,
                    shift == frame_count % 256,
                    colour@ == indicator(input@[0]),
                    self@.len() == picture_len(),
                    forall|i: int|
                        0 <= i < y * 1024 + x * 4 ==> #[trigger] self@[i] == test_pattern_byte(
                            frame_count,
                            input@[0],
                            i,
                        ),
            {
                let r: u8 = ((x + shift) % 256) as u8;
                let g: u8 = ((y + shift / 2) % 256) as u8;
                let b: u8 = (((x + y) / 2 + shift) % 256) as u8;
                let rgba: [u8; 4] = if x < 32 && y < 32 { colour } else { [r, g, b, 0xFF] };
                let ghost pixel = test_pattern_pixel(frame_count, input@[0], x as int, y as int);
                assert(rgba@ =~= pixel);
                let ghost before = self@;
                self.set_pixel(x, y, rgba);
                assert(self@.len() == before.len());
                assert forall|i: int| 0 <= i < y * 1024 + (x + 1) * 4 implies #[trigger] self@[i]
                    == test_pattern_byte(frame_count, input@[0], i) by {
                    if i < y * 1024 + x * 4 {
                        assert(before[i] == test_pattern_byte(frame_count, input@[0], i));
                    } else {
                        assert(i / 4 % 256 == x && i / 1024 == y);
                    }
                }
            }
        }
        assert(self@ =~= Seq::new(
            picture_len(),
            |i: int| test_pattern_byte(frame_count, input@[0], i),
        ));
    }
}

fn indicator_color(buttons: Buttons) -> (rgba: [u8; 4])
    ensures
        rgba@ == indicator(buttons),
{
    let r: u8 = if buttons.contains(Buttons::left()) { 0xFF } else { 0x30 };
    let g: u8 = if buttons.contains(Buttons::up()) { 0xFF } else { 0x30 };
    let b: u8 = if buttons.contains(Buttons::right()) { 0xFF } else { 0x30 };
    let flash: u8 = if buttons.contains(Buttons::down()) { 0xFF } else { 0x30 };
    let rgba: [u8; 4] = [r, g, if b > flash { b } else { flash }, 0xFF];
    assert(rgba@ =~= indicator(buttons));
    rgba
}

} // verus!

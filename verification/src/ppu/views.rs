//! Pictures of the pattern tables and nametables for a debugger.

use vstd::prelude::*;

use super::render::pattern_color;
use super::{palette, Ppu, PpuModel};
use crate::bits::lemma_mask_u8;
use crate::cartridge::{CartModel, Cartridge};
use crate::debug::{PpuImage, PpuViews};

verus! {

/// The 2-bit colour at column `px` of the tile row at `pattern`.
pub open spec fn tile_color(cart: CartModel, pattern: int, px: int) -> u8 {
    pattern_color(
        cart.chr_byte(pattern as u16),
        cart.chr_byte((pattern + 8) as u16),
        (7 - px) as u8,
    )
}

impl PpuModel {
    /// The plain colour of a palette entry, without grayscale or emphasis.
    pub open spec fn view_color(self, index: int) -> Seq<u8> {
        palette::rgba(self.palette[if index % 4 == 0 { index % 16 } else { index }], false, 0)
    }

    /// The colour of a tile's pixel: colour 0 is the backdrop, the others are those of the
    /// palette that starts at entry `base`.
    pub open spec fn shaded(self, color: u8, base: int) -> Seq<u8> {
        self.view_color(if color == 0 { 0 } else { base + color })
    }

    /// A pixel of the picture of the pattern table at `table_base`: 16 rows of 16 tiles.
    pub open spec fn pattern_pixel(
        self,
        cart: CartModel,
        table_base: int,
        base: int,
        x: int,
        y: int,
    ) -> Seq<u8> {
        let pattern = table_base + ((y / 8) * 16 + x / 8) * 16 + y % 8;
        self.shaded(tile_color(cart, pattern, x % 8), base)
    }

    /// The palette that the attributes give a tile of logical nametable `table`.
    pub open spec fn attribute_palette(self, cart: CartModel, table: int, row: int, column: int) -> int {
        let attribute = self.memory_byte(
            (0x2000 + table * 0x400 + 0x3C0 + (row / 4) * 8 + column / 4) as u16,
            cart,
        );
        let shift = (if row / 2 % 2 == 1 { 4int } else { 0 }) + if column / 2 % 2 == 1 {
            2int
        } else {
            0
        };
        ((attribute >> (shift as u8)) & 3) as int
    }

    /// A pixel of the picture of logical nametable `table`: 30 rows of 32 tiles.
    pub open spec fn nametable_pixel(self, cart: CartModel, table: int, x: int, y: int) -> Seq<u8> {
        let row = y / 8;
        let column = x / 8;
        let id = self.memory_byte((0x2000 + table * 0x400 + row * 32 + column) as u16, cart);
        let pattern = (if self.ctrl & 0x10 != 0 { 0x1000int } else { 0 }) + id * 16 + y % 8;
        self.shaded(
            tile_color(cart, pattern, x % 8),
            self.attribute_palette(cart, table, row, column) * 4,
        )
    }

    /// `image` is the picture of the pattern table at `table_base`.
    pub open spec fn is_pattern_picture(
        self,
        cart: CartModel,
        table_base: int,
        base: int,
        image: PpuImage,
    ) -> bool {
        &&& image.wf()
        &&& image.width == 128
        &&& image.height == 128
        &&& forall|x: int, y: int|
            0 <= x < 128 && 0 <= y < 128 ==> #[trigger] image.at(x, y) == self.pattern_pixel(
                cart,
                table_base,
                base,
                x,
                y,
            )
    }

    /// `image` is the picture of logical nametable `table`.
    pub open spec fn is_nametable_picture(self, cart: CartModel, table: int, image: PpuImage) -> bool {
        &&& image.wf()
        &&& image.width == 256
        &&& image.height == 240
        &&& forall|x: int, y: int|
            0 <= x < 256 && 0 <= y < 240 ==> #[trigger] image.at(x, y) == self.nametable_pixel(
                cart,
                table,
                x,
                y,
            )
    }
}

impl Ppu {
    /// The plain colours of the 32 palette entries.
    fn view_colors(&self) -> (table: [[u8; 4]; 32])
        ensures
            forall|i: int| 0 <= i < 32 ==> (#[trigger] table@[i])@ == self@.view_color(i),
    {
        let mut table: [[u8; 4]; 32] = [[0u8; 4]; 32];
        for i in 0..32usize
            invariant
                forall|j: int| 0 <= j < i ==> (#[trigger] table@[j])@ == self@.view_color(j),
        {
            let index: usize = if i % 4 == 0 { i % 16 } else { i };
            table[i] = palette::to_rgba(self.palette[index], false, 0);
        }
        table
    }

    /// Pictures of both pattern tables and all four logical nametables. The pattern tables are
    /// shown in palette `palette_index` modulo 8: the background palettes, then the sprites'.
    pub fn build_views(&self, cart: &Cartridge, palette_index: u8) -> (views: PpuViews)
        requires
            self@.wf(),
        ensures
            forall|k: int|
                0 <= k < 2 ==> self@.is_pattern_picture(
                    cart@,
                    k * 0x1000,
                    (palette_index % 8) * 4,
                    #[trigger] views.pattern_tables@[k],
                ),
            forall|k: int|
                0 <= k < 4 ==> self@.is_nametable_picture(
                    cart@,
                    k,
                    #[trigger] views.nametables@[k],
                ),
    {
        let colors: [[u8; 4]; 32] = self.view_colors();
        let base: usize = (palette_index % 8) as usize * 4;
        PpuViews {
            pattern_tables: [
                self.pattern_picture(cart, &colors, 0, base),
                self.pattern_picture(cart, &colors, 0x1000, base),
            ],
            nametables: [
                self.nametable_picture(cart, &colors, 0),
                self.nametable_picture(cart, &colors, 1),
                self.nametable_picture(cart, &colors, 2),
                self.nametable_picture(cart, &colors, 3),
            ],
        }
    }

    fn pattern_picture(
        &self,
        cart: &Cartridge,
        colors: &[[u8; 4]; 32],
        table_base: u16,
        base: usize,
    ) -> (image: PpuImage)
        requires
            table_base <= 0x1000,
            base <= 28,
            forall|i: int| 0 <= i < 32 ==> (#[trigger] colors@[i])@ == self@.view_color(i),
        ensures
            self@.is_pattern_picture(cart@, table_base as int, base as int, image),
    {
        let ghost m = self@;
        let ghost c = cart@;
        let mut image: PpuImage = PpuImage::new(128, 128);
        for tile in 0..256u16
            invariant
                m == self@,
                c == cart@,
                table_base <= 0x1000,
                base <= 28,
                forall|i: int| 0 <= i < 32 ==> (#[trigger] colors@[i])@ == m.view_color(i),
                image.wf(),
                image.width == 128,
                image.height == 128,
                forall|x: int, y: int|
                    0 <= x < 128 && 0 <= y < 128 && (y / 8) * 16 + x / 8 < tile
                        ==> #[trigger] image.at(x, y) == m.pattern_pixel(
                        c,
                        table_base as int,
                        base as int,
                        x,
                        y,
                    ),
        {
            let ghost before = image;
            let tile_x: usize = (tile % 16) as usize;
            let tile_y: usize = (tile / 16) as usize;
            self.draw_tile(
                cart,
                &mut image,
                table_base + tile * 16,
                tile_x * 8,
                tile_y * 8,
                colors,
                base,
            );
            proof {
                assert forall|x: int, y: int|
                    0 <= x < 128 && 0 <= y < 128 && (y / 8) * 16 + x / 8 < tile
                        + 1 implies #[trigger] image.at(x, y) == m.pattern_pixel(
                    c,
                    table_base as int,
                    base as int,
                    x,
                    y,
                ) by {
                    if (y / 8) * 16 + x / 8 == tile {
                        assert(y / 8 == tile_y && x / 8 == tile_x);
                        assert(in_tile(tile_x * 8, tile_y * 8, x, y));
                    } else {
                        assert(!in_tile(tile_x * 8, tile_y * 8, x, y));
                        assert(image.at(x, y) == before.at(x, y));
                    }
                }
            }
        }
        image
    }

    fn nametable_picture(&self, cart: &Cartridge, colors: &[[u8; 4]; 32], table: u16) -> (image:
        PpuImage)
        requires
            self@.wf(),
            table < 4,
            forall|i: int| 0 <= i < 32 ==> (#[trigger] colors@[i])@ == self@.view_color(i),
        ensures
            self@.is_nametable_picture(cart@, table as int, image),
    {
        let ghost m = self@;
        let ghost c = cart@;
        let pattern_base: u16 = if self.ctrl & 0x10 != 0 { 0x1000 } else { 0 };
        let table_base: u16 = 0x2000 + table * 0x400;
        let mut image: PpuImage = PpuImage::new(256, 240);
        for tile in 0..960u16
            invariant
                m == self@,
                c == cart@,
                m.wf(),
                table < 4,
                pattern_base == if m.ctrl & 0x10 != 0 { 0x1000u16 } else { 0 },
                table_base == 0x2000 + table * 0x400,
                forall|i: int| 0 <= i < 32 ==> (#[trigger] colors@[i])@ == m.view_color(i),
                image.wf(),
                image.width == 256,
                image.height == 240,
                forall|x: int, y: int|
                    0 <= x < 256 && 0 <= y < 240 && (y / 8) * 32 + x / 8 < tile
                        ==> #[trigger] image.at(x, y) == m.nametable_pixel(c, table as int, x, y),
        {
            let ghost before = image;
            let row: u16 = tile / 32;
            let column: u16 = tile % 32;
            let tile_id: u8 = self.read_memory(table_base + row * 32 + column, cart);
            let attr: u8 = self.read_memory(
                table_base + 0x3C0 + (row / 4) * 8 + column / 4,
                cart,
            );
            let shift: u8 = (if row / 2 % 2 == 1 { 4u8 } else { 0 }) + if column / 2 % 2 == 1 {
                2u8
            } else {
                0
            };
            proof {
                lemma_mask_u8(attr >> shift);
            }
            let select: usize = ((attr >> shift) & 3) as usize * 4;
            self.draw_tile(
                cart,
                &mut image,
                pattern_base + tile_id as u16 * 16,
                column as usize * 8,
                row as usize * 8,
                colors,
                select,
            );
            proof {
                assert forall|x: int, y: int|
                    0 <= x < 256 && 0 <= y < 240 && (y / 8) * 32 + x / 8 < tile
                        + 1 implies #[trigger] image.at(x, y) == m.nametable_pixel(
                    c,
                    table as int,
                    x,
                    y,
                ) by {
                    if (y / 8) * 32 + x / 8 == tile {
                        assert(y / 8 == row && x / 8 == column);
                        assert(in_tile(column * 8, row * 8, x, y));
                    } else {
                        assert(!in_tile(column * 8, row * 8, x, y));
                        assert(image.at(x, y) == before.at(x, y));
                    }
                }
            }
        }
        image
    }

    /// Draws the tile at `pattern_addr` with its top left pixel at `(x0, y0)`.
    fn draw_tile(
        &self,
        cart: &Cartridge,
        image: &mut PpuImage,
        pattern_addr: u16,
        x0: usize,
        y0: usize,
        colors: &[[u8; 4]; 32],
        base: usize,
    )
        requires
            old(image).wf(),
            x0 + 8 <= old(image).width,
            y0 + 8 <= old(image).height,
            pattern_addr <= 0xFFF0,
            base <= 28,
            forall|i: int| 0 <= i < 32 ==> (#[trigger] colors@[i])@ == self@.view_color(i),
        ensures
            final(image).wf(),
            final(image).width == old(image).width,
            final(image).height == old(image).height,
            forall|x: int, y: int|
                0 <= x < old(image).width && 0 <= y < old(image).height ==> #[trigger] final(image).at(
                    x,
                    y,
                ) == if in_tile(x0 as int, y0 as int, x, y) {
                    self@.shaded(
                        tile_color(cart@, pattern_addr + (y - y0), x - x0),
                        base as int,
                    )
                } else {
                    old(image).at(x, y)
                },
    {
        let ghost m = self@;
        let ghost c = cart@;
        for place in 0..64usize
            invariant
                m == self@,
                c == cart@,
                image.wf(),
                image.width == old(image).width,
                image.height == old(image).height,
                x0 + 8 <= image.width,
                y0 + 8 <= image.height,
                pattern_addr <= 0xFFF0,
                base <= 28,
                forall|i: int| 0 <= i < 32 ==> (#[trigger] colors@[i])@ == m.view_color(i),
                forall|x: int, y: int|
                    0 <= x < image.width && 0 <= y < image.height ==> #[trigger] image.at(x, y)
                        == if in_tile(x0 as int, y0 as int, x, y) && (y - y0) * 8 + (x - x0) < place {
                        m.shaded(tile_color(c, pattern_addr + (y - y0), x - x0), base as int)
                    } else {
                        old(image).at(x, y)
                    },
        {
            let row: usize = place / 8;
            let px: usize = place % 8;
            let low: u8 = cart.read_chr(pattern_addr + row as u16);
            let high: u8 = cart.read_chr(pattern_addr + row as u16 + 8);
            let bit: u8 = (7 - px) as u8;
            let color: u8 = (((high >> bit) & 1) << 1) | ((low >> bit) & 1);
            assert(color <= 3) by {
                super::render::lemma_render_bits(low, high, bit, 0);
            }
            assert(color == tile_color(c, pattern_addr + row, px as int));
            let rgba: [u8; 4] = colors[if color == 0 { 0 } else { base + color as usize }];
            image.set_pixel(x0 + px, y0 + row, rgba);
        }
    }
}

/// The pixel is in the tile whose top left pixel is at `(x0, y0)`.
pub open spec fn in_tile(x0: int, y0: int, x: int, y: int) -> bool {
    x0 <= x < x0 + 8 && y0 <= y < y0 + 8
}

} // verus!

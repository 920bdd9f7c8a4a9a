//! Painting scanlines.
//!
//! A line is painted from the registers, sprites, palette and patterns as they are at its dot 0.

use vstd::prelude::*;

use super::{palette, Ppu, PpuModel};
use crate::bits::{lemma_mask_u16, lemma_mask_u8};
use crate::cartridge::{CartModel, Cartridge};
use crate::frame::{with_row, WIDTH};

verus! {

/// `v` one tile to the left.
pub open spec fn tile_left(v: u16) -> u16 {
    if v & 0x1F == 0 { ((v & !0x1F) | 31) ^ 0x0400 } else { (v - 1) as u16 }
}

/// `v` `n` tiles to the left.
pub open spec fn tiles_left(v: u16, n: int) -> u16
    decreases n,
{
    if n <= 0 { v } else { tile_left(tiles_left(v, n - 1)) }
}

/// The 2-bit colour of a pixel in a tile row, from its two pattern bytes; bit 7 is leftmost.
pub open spec fn pattern_color(low: u8, high: u8, bit: u8) -> u8 {
    (((high >> bit) & 1) << 1) | ((low >> bit) & 1)
}

pub proof fn lemma_render_bits(low: u8, high: u8, bit: u8, a: u8)
    by (bit_vector)
    requires
        bit < 8,
    ensures
        (((high >> bit) & 1) << 1) | ((low >> bit) & 1) <= 3,
        ((((high >> bit) & 1) << 1) | ((low >> bit) & 1)) != 0 ==> ((a & 3) << 2) | ((((high >> bit)
            & 1) << 1) | ((low >> bit) & 1)) != 0,
        ((a & 3) << 2) | ((((high >> bit) & 1) << 1) | ((low >> bit) & 1)) < 16,
        16 <= 0x10 | ((a & 3) << 2) | ((((high >> bit) & 1) << 1) | ((low >> bit) & 1)) < 32,
{
}

proof fn lemma_tile_left_bits(v: u16)
    by (bit_vector)
    requires
        v <= 0x7FFF,
    ensures
        ((v & !0x1F) | 31) ^ 0x0400 <= 0x7FFF,
        v & 0x1F != 0 ==> v > 0,
        (v >> 5) & 0x1F <= 31,
        (v >> 10) & 3 <= 3,
        (v >> 12) & 7 <= 7,
{
}

impl PpuModel {
    /// The scroll position of the line's first tile: `v` without the tiles fetched ahead.
    pub open spec fn line_start(self) -> u16 {
        tiles_left(self.v, self.prefetch_incs as int)
    }

    /// The nametable of tile column `tile` of the line: the neighbour beyond column 31.
    pub open spec fn tile_table(self, tile: int) -> u16 {
        let start = self.line_start();
        let across = ((start & 0x1F) + tile) as u16;
        0x2000 | ((((start >> 10) & 3) ^ ((across >> 5) & 1)) << 10)
    }

    pub open spec fn tile_column(self, tile: int) -> u16 {
        (((self.line_start() & 0x1F) + tile) as u16) & 0x1F
    }

    /// The palette that the attribute table gives tile column `tile`.
    pub open spec fn tile_palette(self, tile: int, cart: CartModel) -> u8 {
        let row = (self.line_start() >> 5) & 0x1F;
        let column = self.tile_column(tile);
        let attribute = self.memory_byte(
            self.tile_table(tile) | 0x03C0 | ((row >> 2) << 3) | (column >> 2),
            cart,
        );
        (attribute >> (((row & 2) << 1) | (column & 2))) & 3
    }

    /// Where the pattern row of tile column `tile` is.
    pub open spec fn tile_pattern(self, tile: int, cart: CartModel) -> u16 {
        let start = self.line_start();
        let row = (start >> 5) & 0x1F;
        let id = self.memory_byte(
            self.tile_table(tile) | (row << 5) | self.tile_column(tile),
            cart,
        );
        ((if self.ctrl & 0x10 != 0 { 0x1000int } else { 0 }) + id * 16 + ((start >> 12) & 7)) as u16
    }

    /// The background at `x`: a palette index, or 0 where it is transparent or hidden.
    pub open spec fn background(self, x: int, cart: CartModel) -> u8 {
        let across = x + self.fine_x;
        let tile = across / 8;
        let pattern = self.tile_pattern(tile, cart);
        let color = pattern_color(
            cart.chr_byte(pattern),
            cart.chr_byte((pattern + 8) as u16),
            (7 - across % 8) as u8,
        );
        if self.mask & 8 == 0 || color == 0 || (self.mask & 2 == 0 && x < 8) {
            0
        } else {
            (self.tile_palette(tile, cart) << 2) | color
        }
    }

    pub open spec fn sprite_height(self) -> int {
        if self.ctrl & 0x20 != 0 { 16 } else { 8 }
    }

    /// The row of sprite `n` that `line` cuts. Its first row shows one line below its Y.
    pub open spec fn sprite_row(self, n: int, line: int) -> int {
        line - 1 - self.oam[n * 4]
    }

    pub open spec fn on_line(self, n: int, line: int) -> bool {
        0 <= self.sprite_row(n, line) < self.sprite_height()
    }

    /// How many of the first `n` sprites are shown on the line: the first eight that are on it.
    pub open spec fn shown(self, n: int, line: int) -> int
        decreases n,
    {
        if n <= 0 {
            0
        } else {
            let before = self.shown(n - 1, line);
            if self.on_line(n - 1, line) && before < 8 { before + 1 } else { before }
        }
    }

    /// Whether one of the first `n` sprites is on the line beyond the eight that are shown.
    pub open spec fn overflows(self, n: int, line: int) -> bool
        decreases n,
    {
        n > 0 && (self.overflows(n - 1, line) || (self.on_line(n - 1, line) && self.shown(
            n - 1,
            line,
        ) >= 8))
    }

    /// Where the pattern row of sprite `n` is. Tall sprites take two tiles from the table that
    /// bit 0 of the tile number selects.
    pub open spec fn sprite_pattern(self, n: int, line: int) -> u16 {
        let height = self.sprite_height();
        let plain = self.sprite_row(n, line);
        let row = if self.oam[n * 4 + 2] & 0x80 != 0 { height - 1 - plain } else { plain };
        let tile = self.oam[n * 4 + 1];
        if height == 16 {
            ((if tile & 1 != 0 { 0x1000int } else { 0 }) + ((tile & 0xFE) + row / 8) * 16 + row % 8) as u16
        } else {
            ((if self.ctrl & 8 != 0 { 0x1000int } else { 0 }) + tile * 16 + row) as u16
        }
    }

    /// The colour of sprite `n` at `x`: a palette index, or 0 where it is transparent or hidden.
    pub open spec fn sprite_color(self, n: int, line: int, x: int, cart: CartModel) -> u8 {
        let attr = self.oam[n * 4 + 2];
        let px = x - self.oam[n * 4 + 3];
        let pattern = self.sprite_pattern(n, line);
        let color = pattern_color(
            cart.chr_byte(pattern),
            cart.chr_byte((pattern + 8) as u16),
            (if attr & 0x40 != 0 { px } else { 7 - px }) as u8,
        );
        if !(0 <= px < 8) || (self.mask & 4 == 0 && x < 8) || color == 0 {
            0
        } else {
            0x10 | ((attr & 3) << 2) | color
        }
    }

    /// Which of the first `n` sprites shows at `x`: the first shown one with a colour there.
    pub open spec fn top_sprite(self, n: int, line: int, x: int, cart: CartModel) -> Option<int>
        decreases n,
    {
        if n <= 0 {
            None
        } else {
            match self.top_sprite(n - 1, line, x, cart) {
                Some(s) => Some(s),
                None => if self.on_line(n - 1, line) && self.shown(n - 1, line) < 8
                    && self.sprite_color(n - 1, line, x, cart) != 0 {
                    Some(n - 1)
                } else {
                    None
                },
            }
        }
    }

    /// The sprite at `x`, where sprites are switched on.
    pub open spec fn sprite_at(self, line: int, x: int, cart: CartModel) -> Option<int> {
        if self.mask & 0x10 != 0 { self.top_sprite(64, line, x, cart) } else { None }
    }

    /// The palette index that shows at `x`. A sprite behind the background shows only where that
    /// is transparent.
    pub open spec fn pixel(self, line: int, x: int, cart: CartModel) -> u8 {
        let bg = self.background(x, cart);
        match self.sprite_at(line, x, cart) {
            Some(n) => if bg == 0 || self.oam[n * 4 + 2] & 0x20 == 0 {
                self.sprite_color(n, line, x, cart)
            } else {
                bg
            },
            None => bg,
        }
    }

    /// Sprite 0 meets the background at `x`.
    pub open spec fn hits(self, line: int, x: int, cart: CartModel) -> bool {
        self.sprite_at(line, x, cart) == Some(0int) && self.background(x, cart) != 0
    }

    /// The dot of the first of the leftmost `n` pixels at which sprite 0 meets the background,
    /// one more than its position; 0 where it does not.
    pub open spec fn hit_dot(self, n: int, line: int, cart: CartModel) -> int
        decreases n,
    {
        if n <= 0 {
            0
        } else {
            let before = self.hit_dot(n - 1, line, cart);
            if before != 0 {
                before
            } else if self.hits(line, n - 1, cart) {
                n
            } else {
                0
            }
        }
    }

    /// The colour of a palette index under the present mask.
    pub open spec fn color(self, index: int) -> Seq<u8> {
        palette::rgba(
            self.palette[if index % 4 == 0 { index % 16 } else { index }],
            self.mask & 1 != 0,
            self.mask >> 5,
        )
    }

    /// The colours of a line: the backdrop alone while rendering is off.
    pub open spec fn line_colors(self, line: int, cart: CartModel) -> Seq<Seq<u8>> {
        Seq::new(
            256,
            |x: int|
                if self.rendering() {
                    self.color(self.pixel(line, x, cart) as int)
                } else {
                    self.color(0)
                },
        )
    }

    /// The unit after painting a line. Without output the picture stays, and nothing else
    /// differs. The last pixel never reports a hit.
    pub open spec fn rendered(self, line: u16, cart: CartModel) -> PpuModel {
        PpuModel {
            sprite0_hit_dot: if self.rendering() {
                self.hit_dot(255, line as int, cart) as u16
            } else {
                0
            },
            overflow_pending: self.rendering() && self.overflows(64, line as int),
            screen: if self.output_enabled {
                with_row(self.screen, line as int, self.line_colors(line as int, cart))
            } else {
                self.screen
            },
            ..self
        }
    }
}

/// How many sprites are drawn at `i` when `n` are, and `px` pixels from `x` on of the next one.
spec fn reach(n: int, x: int, px: int, i: int) -> int {
    if x <= i < x + px { n + 1 } else { n }
}

/// The sprites of one line.
struct SpriteLine {
    /// Palette indices, 0 where there is no sprite.
    index: [u8; 256],
    /// Behind the background.
    behind: [bool; 256],
    /// Sprite 0.
    is_sprite0: [bool; 256],
}

impl SpriteLine {
    /// The line shows the first `n` sprites of `m` at `x`.
    closed spec fn shows(self, m: PpuModel, n: int, line: int, x: int, cart: CartModel) -> bool {
        match m.top_sprite(n, line, x, cart) {
            Some(s) => {
                &&& 0 <= s < n
                &&& self.index@[x] == m.sprite_color(s, line, x, cart)
                &&& self.index@[x] != 0
                &&& self.index@[x] < 32
                &&& self.behind@[x] == (m.oam[s * 4 + 2] & 0x20 != 0)
                &&& self.is_sprite0@[x] == (s == 0)
            },
            None => self.index@[x] == 0 && !self.is_sprite0@[x],
        }
    }

    /// The line shows the first `n` sprites everywhere, and `px` pixels from `x` on of the next.
    closed spec fn shows_part(
        self,
        m: PpuModel,
        n: int,
        line: int,
        x: int,
        px: int,
        cart: CartModel,
    ) -> bool {
        forall|i: int|
            0 <= i < 256 ==> #[trigger] self.shows(m, reach(n, x, px, i), line, i, cart)
    }

    /// The line is what sprites `m` show, which is nothing where they are switched off.
    closed spec fn is_line_of(self, m: PpuModel, line: int, cart: CartModel) -> bool {
        forall|i: int|
            #![trigger self.index@[i]]
            #![trigger self.is_sprite0@[i]]
            0 <= i < 256 ==> if m.mask & 0x10 != 0 {
                self.shows(m, 64, line, i, cart)
            } else {
                self.index@[i] == 0 && !self.is_sprite0@[i]
            }
    }
}

proof fn lemma_hit_dot(m: PpuModel, n: int, line: int, cart: CartModel)
    requires
        0 <= n,
    ensures
        0 <= m.hit_dot(n, line, cart) <= n,
    decreases n,
{
    if n > 0 {
        lemma_hit_dot(m, n - 1, line, cart);
    }
}

/// Painting a line leaves the unit in order, and where it was.
pub proof fn lemma_rendered(m: PpuModel, line: u16, cart: CartModel)
    requires
        m.wf(),
        line < 240,
    ensures
        m.rendered(line, cart).wf(),
        m.sound() ==> m.rendered(line, cart).sound(),
        m.rendered(line, cart).sprite0_hit_dot < 256,
{
    lemma_hit_dot(m, 255, line as int, cart);
}

impl Ppu {
    /// The colours of the 32 palette entries under the present mask.
    fn color_table(&self) -> (table: [[u8; 4]; 32])
        ensures
            forall|i: int| 0 <= i < 32 ==> (#[trigger] table@[i])@ == self@.color(i),
    {
        let grayscale: bool = self.mask & 1 != 0;
        let emphasis: u8 = self.mask >> 5;
        let mut table: [[u8; 4]; 32] = [[0u8; 4]; 32];
        for i in 0..32usize
            invariant
                grayscale == (self.mask & 1 != 0),
                emphasis == self.mask >> 5,
                forall|j: int| 0 <= j < i ==> (#[trigger] table@[j])@ == self@.color(j),
        {
            let index: usize = if i % 4 == 0 { i % 16 } else { i };
            table[i] = palette::to_rgba(self.palette[index], grayscale, emphasis);
        }
        table
    }

    /// Paints visible line `line`, and works out when sprite 0 meets the background and whether
    /// there are too many sprites.
    pub fn render_scanline(&mut self, line: u16, cart: &Cartridge)
        requires
            old(self)@.wf(),
            line < 240,
        ensures
            final(self)@ == old(self)@.rendered(line, cart@),
            final(self)@.wf(),
            old(self)@.sound() ==> final(self)@.sound(),
    {
        let ghost before = self@;
        let ghost y = line as int;
        if self.mask & 0x18 == 0 {
            self.sprite0_hit_dot = 0;
            self.overflow_pending = false;
            if self.output_enabled {
                let backdrop: [u8; 4] = self.color_table()[0];
                let row: [[u8; 4]; 256] = [backdrop; 256];
                self.frame_buffer.paint_row(line as usize, &row);
                proof {
                    assert(Seq::new(256, |x: int| row@[x]@) =~= before.line_colors(y, cart@));
                }
            }
            return;
        }
        let background: [u8; 256] = self.render_background(cart);
        let (sprites, overflow): (SpriteLine, bool) = self.evaluate_sprites(line, cart);
        let mut hit_dot: u16 = 0;
        for x in 0..255usize
            invariant
                forall|i: int| 0 <= i < 256 ==> #[trigger] background@[i] == before.background(i, cart@),
                sprites.is_line_of(before, y, cart@),
                hit_dot == before.hit_dot(x as int, y, cart@),
                hit_dot <= x,
        {
            assert(background@[x as int] == before.background(x as int, cart@));
            if hit_dot == 0 && sprites.is_sprite0[x] && background[x] != 0 {
                hit_dot = x as u16 + 1;
            }
        }
        self.sprite0_hit_dot = hit_dot;
        self.overflow_pending = overflow;
        if self.output_enabled {
            let colors: [[u8; 4]; 32] = self.color_table();
            let mut row: [[u8; 4]; 256] = [[0u8; 4]; 256];
            for x in 0..256usize
                invariant
                    before.rendering(),
                    forall|i: int| 0 <= i < 32 ==> (#[trigger] colors@[i])@ == before.color(i),
                    forall|i: int|
                        0 <= i < 256 ==> #[trigger] background@[i] == before.background(i, cart@)
                            && background@[i] < 32,
                    sprites.is_line_of(before, y, cart@),
                    forall|i: int|
                        0 <= i < x ==> (#[trigger] row@[i])@ == before.color(
                            before.pixel(y, i, cart@) as int,
                        ),
            {
                let bg: u8 = background[x];
                let sp: u8 = sprites.index[x];
                let chosen: u8 = if sp != 0 && (bg == 0 || !sprites.behind[x]) { sp } else { bg };
                assert(chosen == before.pixel(y, x as int, cart@));
                row[x] = colors[chosen as usize];
            }
            self.frame_buffer.paint_row(line as usize, &row);
            proof {
                assert(Seq::new(256, |x: int| row@[x]@) =~= before.line_colors(y, cart@));
            }
        }
    }

    /// The background of a line, tile by tile: 32 tiles, and one more that the fine scroll shows
    /// a part of.
    fn render_background(&self, cart: &Cartridge) -> (out: [u8; 256])
        requires
            self@.wf(),
        ensures
            forall|x: int|
                0 <= x < 256 ==> #[trigger] out@[x] == self@.background(x, cart@) && out@[x] < 16,
    {
        broadcast use {lemma_mask_u16, lemma_mask_u8};

        let mut out: [u8; 256] = [0u8; 256];
        if self.mask & 8 == 0 {
            return out;
        }
        let mut start: u16 = self.v;
        for i in 0..self.prefetch_incs
            invariant
                self@.wf(),
                start == tiles_left(self.v, i as int),
                start <= 0x7FFF,
        {
            proof {
                lemma_tile_left_bits(start);
            }
            start = if start & 0x1F == 0 { ((start & !0x1Fu16) | 31) ^ 0x0400 } else { start - 1 };
        }
        proof {
            lemma_tile_left_bits(start);
        }
        let coarse_x: u16 = start & 0x1F;
        let coarse_y: u16 = (start >> 5) & 0x1F;
        let nametable: u16 = (start >> 10) & 3;
        let fine_y: u16 = (start >> 12) & 7;
        let pattern_base: u16 = if self.ctrl & 0x10 != 0 { 0x1000 } else { 0 };
        let fine_x: usize = self.fine_x as usize;
        let hide_left: bool = self.mask & 2 == 0;
        for tile in 0..33usize
            invariant
                self@.wf(),
                self.mask & 8 != 0,
                start == self@.line_start(),
                coarse_x == start & 0x1F,
                coarse_x <= 0x1F,
                coarse_y == (start >> 5) & 0x1F,
                coarse_y <= 31,
                nametable == (start >> 10) & 3,
                nametable <= 3,
                fine_y == (start >> 12) & 7,
                fine_y <= 7,
                pattern_base == if self.ctrl & 0x10 != 0 { 0x1000u16 } else { 0 },
                fine_x == self.fine_x,
                fine_x <= 7,
                hide_left == (self.mask & 2 == 0),
                forall|x: int|
                    0 <= x < 256 ==> (#[trigger] out@[x]) == if x + fine_x < tile * 8 {
                        self@.background(x, cart@)
                    } else {
                        0
                    } && out@[x] < 16,
        {
            let tile_x: u16 = coarse_x + tile as u16;
            let column: u16 = tile_x & 0x1F;
            let table: u16 = nametable ^ ((tile_x >> 5) & 1);
            let table_base: u16 = 0x2000 | (table << 10);
            let tile_id: u8 = self.read_memory(table_base | (coarse_y << 5) | column, cart);
            let attr_addr: u16 = table_base | 0x03C0 | ((coarse_y >> 2) << 3) | (column >> 2);
            let attr: u8 = self.read_memory(attr_addr, cart);
            let shift: u16 = ((coarse_y & 2) << 1) | (column & 2);
            assert(((coarse_y & 2) << 1) | (column & 2) <= 6) by (bit_vector);
            let palette_select: u8 = (attr >> shift) & 3;
            let pattern: u16 = pattern_base + tile_id as u16 * 16 + fine_y;
            let low: u8 = cart.read_chr(pattern);
            let high: u8 = cart.read_chr(pattern + 8);
            assert(pattern == self@.tile_pattern(tile as int, cart@));
            assert(palette_select == self@.tile_palette(tile as int, cart@));
            let ghost tile_out = out@;
            for bit in 0..8usize
                invariant
                    self@.wf(),
                    self.mask & 8 != 0,
                    tile < 33,
                    fine_x == self.fine_x,
                    fine_x <= 7,
                    hide_left == (self.mask & 2 == 0),
                    pattern == self@.tile_pattern(tile as int, cart@),
                    palette_select == self@.tile_palette(tile as int, cart@),
                    palette_select == (attr >> shift) & 3,
                    low == cart@.chr_byte(pattern),
                    pattern < 0xFFF0,
                    high == cart@.chr_byte((pattern + 8) as u16),
                    forall|x: int|
                        0 <= x < 256 ==> (#[trigger] out@[x]) == if x + fine_x < tile * 8 + bit {
                            self@.background(x, cart@)
                        } else {
                            0
                        } && out@[x] < 16,
            {
                let across: usize = tile * 8 + bit;
                let place: u8 = (7 - bit) as u8;
                let color: u8 = (((high >> place) & 1) << 1) | ((low >> place) & 1);
                proof {
                    lemma_render_bits(low, high, place, attr >> shift);
                    assert(color == pattern_color(low, high, place));
                    assert((attr >> shift) & 3 == palette_select);
                }
                if across >= fine_x && across - fine_x < WIDTH {
                    let screen_x: usize = across - fine_x;
                    assert((screen_x + fine_x) / 8 == tile);
                    assert((screen_x + fine_x) % 8 == bit);
                    if !(color == 0 || (hide_left && screen_x < 8)) {
                        out[screen_x] = (palette_select << 2) | color;
                    }
                    assert(out@[screen_x as int] == self@.background(screen_x as int, cart@));
                }
            }
        }
        out
    }

    /// The sprites of a line: the first eight in order, earlier ones in front. The second result
    /// tells whether there are more. Sprites that are switched off only count.
    fn evaluate_sprites(&self, line: u16, cart: &Cartridge) -> (result: (SpriteLine, bool))
        requires
            self@.wf(),
            line < 240,
        ensures
            result.1 == self@.overflows(64, line as int),
            result.0.is_line_of(self@, line as int, cart@),
    {
        let ghost m = self@;
        let ghost c = cart@;
        let ghost y = line as int;
        let mut out: SpriteLine = SpriteLine {
            index: [0u8; 256],
            behind: [false; 256],
            is_sprite0: [false; 256],
        };
        let draw: bool = self.mask & 0x10 != 0;
        let tall: bool = self.ctrl & 0x20 != 0;
        let height: u16 = if tall { 16 } else { 8 };
        let mut found: u8 = 0;
        let mut overflow: bool = false;
        for n in 0..64usize
            invariant
                m == self@,
                c == cart@,
                y == line,
                m.wf(),
                line < 240,
                draw == (m.mask & 0x10 != 0),
                height == m.sprite_height(),
                found == m.shown(n as int, y),
                found <= 8,
                overflow == m.overflows(n as int, y),
                draw ==> out.shows_part(m, n as int, y, 0, 0, c),
                !draw ==> out.is_line_of(m, y, c),
        {
            let base: usize = n * 4;
            let top: u16 = self.oam[base] as u16 + 1;
            let on_line: bool = line >= top && line - top < height;
            assert(on_line == m.on_line(n as int, y));
            let ghost before = out;
            if on_line && found == 8 {
                overflow = true;
            } else if on_line {
                if draw {
                    self.draw_sprite(n, line - top, line, cart, &mut out);
                }
                found = found + 1;
            }
            proof {
                if draw && !(on_line && found <= 8 && m.shown(n as int, y) < 8) {
                    assert forall|i: int| 0 <= i < 256 implies #[trigger] out.shows(
                        m,
                        reach(n + 1, 0, 0, i),
                        y,
                        i,
                        c,
                    ) by {
                        assert(before.shows(m, reach(n as int, 0, 0, i), y, i, c));
                    }
                }
            }
        }
        proof {
            if draw {
                assert forall|i: int| 0 <= i < 256 implies out.shows(m, 64, y, i, c) by {
                    assert(out.shows(m, reach(64, 0, 0, i), y, i, c));
                }
            }
        }
        (out, overflow)
    }

    #[verifier::spinoff_prover]
    #[verifier::rlimit(60)]
    fn draw_sprite(&self, n: usize, row: u16, line: u16, cart: &Cartridge, out: &mut SpriteLine)
        requires
            self@.wf(),
            n < 64,
            line < 240,
            self@.on_line(n as int, line as int),
            row == self@.sprite_row(n as int, line as int),
            self@.shown(n as int, line as int) < 8,
            old(out).shows_part(self@, n as int, line as int, 0, 0, cart@),
        ensures
            final(out).shows_part(self@, n + 1, line as int, 0, 0, cart@),
    {
        broadcast use lemma_mask_u8;

        let ghost m = self@;
        let ghost c = cart@;
        let ghost y = line as int;
        let base: usize = n * 4;
        let tall: bool = self.ctrl & 0x20 != 0;
        let height: u16 = if tall { 16 } else { 8 };
        let hide_left: bool = self.mask & 4 == 0;
        let tile: u8 = self.oam[base + 1];
        let attr: u8 = self.oam[base + 2];
        let x: usize = self.oam[base + 3] as usize;
        let flip_h: bool = attr & 0x40 != 0;
        let row: u16 = if attr & 0x80 != 0 { height - 1 - row } else { row };
        assert(tile & 0xFE <= 0xFE) by (bit_vector);
        let pattern: u16 = if tall {
            let table: u16 = if tile & 1 != 0 { 0x1000 } else { 0 };
            table + ((tile & 0xFE) as u16 + row / 8) * 16 + row % 8
        } else {
            let table: u16 = if self.ctrl & 8 != 0 { 0x1000 } else { 0 };
            table + tile as u16 * 16 + row
        };
        assert(pattern == m.sprite_pattern(n as int, y));
        let low: u8 = cart.read_chr(pattern);
        let high: u8 = cart.read_chr(pattern + 8);
        proof {
            assert forall|i: int| 0 <= i < 256 implies #[trigger] out.shows(
                m,
                reach(n as int, x as int, 0, i),
                y,
                i,
                c,
            ) by {
                assert(out.shows(m, reach(n as int, 0, 0, i), y, i, c));
            }
        }
        for px in 0..8usize
            invariant
                m == self@,
                c == cart@,
                y == line,
                m.wf(),
                n < 64,
                line < 240,
                x == m.oam[n * 4 + 3],
                attr == m.oam[n * 4 + 2],
                flip_h == (attr & 0x40 != 0),
                hide_left == (m.mask & 4 == 0),
                pattern == m.sprite_pattern(n as int, y),
                pattern < 0xFFF0,
                low == c.chr_byte(pattern),
                high == c.chr_byte((pattern + 8) as u16),
                m.on_line(n as int, y),
                m.shown(n as int, y) < 8,
                out.shows_part(m, n as int, y, x as int, px as int, c),
        {
            let ghost before = *out;
            let screen_x: usize = x + px;
            let bit: u8 = if flip_h { px as u8 } else { (7 - px) as u8 };
            let color: u8 = (((high >> bit) & 1) << 1) | ((low >> bit) & 1);
            proof {
                lemma_render_bits(low, high, bit, attr);
                assert(color == pattern_color(low, high, bit));
                if screen_x < 256 {
                    assert(before.shows(
                        m,
                        reach(n as int, x as int, px as int, screen_x as int),
                        y,
                        screen_x as int,
                        c,
                    ));
                }
            }
            if screen_x < WIDTH && !(hide_left && screen_x < 8) {
                if color != 0 && out.index[screen_x] == 0 {
                    out.index[screen_x] = 0x10 | ((attr & 3) << 2) | color;
                    out.behind[screen_x] = attr & 0x20 != 0;
                    out.is_sprite0[screen_x] = n == 0;
                }
            }
            proof {
                assert forall|i: int| 0 <= i < 256 implies #[trigger] out.shows(
                    m,
                    reach(n as int, x as int, px + 1, i),
                    y,
                    i,
                    c,
                ) by {
                    assert(before.shows(m, reach(n as int, x as int, px as int, i), y, i, c));
                }
            }
        }
        proof {
            assert forall|i: int| 0 <= i < 256 implies #[trigger] out.shows(
                m,
                reach(n + 1, 0, 0, i),
                y,
                i,
                c,
            ) by {
                assert(out.shows(m, reach(n as int, x as int, 8, i), y, i, c));
            }
        }
    }
}

} // verus!

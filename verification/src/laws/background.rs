//! What the background shows: a window on a plane of two by two nametables.

use vstd::arithmetic::div_mod::lemma_fundamental_div_mod_converse;
use vstd::prelude::*;

use super::words::{bit, one_if};
use crate::cartridge::CartModel;
use crate::ppu::render::{tile_left, tiles_left};
use crate::ppu::views::tile_color;
use crate::ppu::{line_down, tile_right, PpuModel};

verus! {

/// The horizontal position of `v` in tiles: 32 columns in each of two tables.
pub open spec fn across(v: u16) -> int {
    v % 32 + 32 * (v / 1024 % 2)
}

/// Two bits of a byte, `s` and the one above it, as a number.
pub open spec fn bit_pair(v: u8, s: int) -> int {
    one_if(bit(v, s as u8)) + 2 * one_if(bit(v, (s + 1) as u8))
}

impl PpuModel {
    /// Where the window's first pixel is on the plane, which is 512 pixels wide: without the tiles
    /// that were fetched ahead.
    pub open spec fn window_left(self) -> int {
        8 * across(self.v) - 8 * self.prefetch_incs + self.fine_x
    }

    /// The table of the pixel at `x`, `$2000` to `$2C00`.
    pub open spec fn plane_table(self, x: int) -> int {
        0x2000 + 0x800 * (self.v / 2048 % 2) + 0x400 * ((self.window_left() + x) % 512 / 256)
    }

    /// The tile column and row of it in that table.
    pub open spec fn plane_column(self, x: int) -> int {
        (self.window_left() + x) % 256 / 8
    }

    pub open spec fn plane_row(self) -> int {
        self.v as int / 32 % 32
    }
}

proof fn lemma_steps(v: u16, right: u16, left: u16)
    by (bit_vector)
    requires
        v <= 0x7FFF,
        right == (if v & 0x1F == 31 { (v & !0x1F) ^ 0x0400 } else { ((v + 1) as u16) & 0x7FFF }),
        left == (if v & 0x1F == 0 { ((v & !0x1F) | 31) ^ 0x0400 } else { (v - 1) as u16 }),
    ensures
        right <= 0x7FFF,
        right % 32 + 32 * (right / 1024 % 2) == (v % 32 + 32 * (v / 1024 % 2) + 1) % 64,
        right / 32 % 32 == v / 32 % 32,
        right / 2048 == v / 2048,
        right & 0x1F == 0 ==> ((right & !0x1F) | 31) ^ 0x0400 == v,
        right & 0x1F != 0 ==> right - 1 == v,
        left <= 0x7FFF,
        left % 32 + 32 * (left / 1024 % 2) == (v % 32 + 32 * (v / 1024 % 2) + 63) % 64,
        left / 32 % 32 == v / 32 % 32,
        left / 2048 == v / 2048,
        left & 0x1F == 31 ==> (left & !0x1F) ^ 0x0400 == v,
        left & 0x1F != 31 ==> ((left + 1) as u16) & 0x7FFF == v,
{
}

proof fn lemma_down(v: u16, top: u16, row: u16, next: u16, down: u16)
    by (bit_vector)
    requires
        v <= 0x7FFF,
        top == v & !0x7000,
        row == (top & 0x03E0) >> 5,
        next == (if row == 29 || row == 31 { 0 } else { (row + 1) as u16 }),
        down == (if v & 0x7000 != 0x7000 { ((v + 0x1000) as u16) & 0x7FFF } else {
            ((if row == 29 { top ^ 0x0800 } else { top }) & !0x03E0) | (next << 5)
        }),
    ensures
        down <= 0x7FFF,
        down % 32 + 32 * (down / 1024 % 2) == v % 32 + 32 * (v / 1024 % 2),
        8 * (v / 32 % 32) + v / 4096 < 239 || 240 <= 8 * (v / 32 % 32) + v / 4096 < 255 ==> 8 * (down
            / 32 % 32) + down / 4096 == 8 * (v / 32 % 32) + v / 4096 + 1 && down / 2048 % 2 == v
            / 2048 % 2,
        8 * (v / 32 % 32) + v / 4096 == 239 ==> 8 * (down / 32 % 32) + down / 4096 == 0 && down
            / 2048 % 2 == 1 - v / 2048 % 2,
        8 * (v / 32 % 32) + v / 4096 == 255 ==> 8 * (down / 32 % 32) + down / 4096 == 0 && down
            / 2048 % 2 == v / 2048 % 2,
{
}

proof fn lemma_tile_parts(start: u16, sum: u16)
    by (bit_vector)
    requires
        start <= 0x7FFF,
        sum <= 72,
    ensures
        start & 0x1F == start % 32,
        sum & 0x1F == sum % 32,
        ((start >> 5) & 0x1F) == start / 32 % 32,
        (start >> 12) & 7 == start / 4096,
        (0x2000 | ((((start >> 10) & 3) ^ ((sum >> 5) & 1)) << 10)) == 0x2000 + 0x800 * (start / 2048 % 2) + 0x400 * ((start / 1024 % 2 + sum / 32) % 2),
        (0x2000 | ((((start >> 10) & 3) ^ ((sum >> 5) & 1)) << 10)) | (((start >> 5) & 0x1F) << 5) | (sum & 0x1F) == (0x2000 | ((((start >> 10) & 3) ^ ((sum >> 5) & 1)) << 10)) + 32 * ((start >> 5) & 0x1F) + (sum & 0x1F),
        (0x2000 | ((((start >> 10) & 3) ^ ((sum >> 5) & 1)) << 10)) | 0x03C0 | ((((start >> 5) & 0x1F) >> 2) << 3) | ((sum & 0x1F) >> 2) == (0x2000 | ((((start >> 10) & 3) ^ ((sum >> 5) & 1)) << 10)) + 0x3C0 + 8 * (((start >> 5) & 0x1F) / 4) + (sum & 0x1F) / 4,
        ((((start >> 5) & 0x1F) & 2) << 1) | ((sum & 0x1F) & 2) == 4 * (((start >> 5) & 0x1F) / 2 % 2) + 2 * ((sum & 0x1F) / 2 % 2),
{
}

/// Colours and palettes in numbers.
pub proof fn lemma_palette_bits(a: u8, low: u8, high: u8, i: u8)
    by (bit_vector)
    requires
        i < 8,
    ensures
        (a >> 0) & 3 == ((a >> 0) & 1) + 2 * ((a >> 1) & 1),
        (a >> 2) & 3 == ((a >> 2) & 1) + 2 * ((a >> 3) & 1),
        (a >> 4) & 3 == ((a >> 4) & 1) + 2 * ((a >> 5) & 1),
        (a >> 6) & 3 == ((a >> 6) & 1) + 2 * ((a >> 7) & 1),
        (a >> 0) & 1 <= 1,
        (a >> 1) & 1 <= 1,
        (a >> 2) & 1 <= 1,
        (a >> 3) & 1 <= 1,
        (a >> 4) & 1 <= 1,
        (a >> 5) & 1 <= 1,
        (a >> 6) & 1 <= 1,
        (a >> 7) & 1 <= 1,
        (low >> i) & 1 <= 1,
        (high >> i) & 1 <= 1,
        (((high >> i) & 1) << 1) | ((low >> i) & 1) == ((low >> i) & 1) + 2 * ((high >> i) & 1),
        (((a & 3) << 2) | ((((high >> i) & 1) << 1) | ((low >> i) & 1))) == 4 * (a & 3) + ((low >> i)
            & 1) + 2 * ((high >> i) & 1),
        (0x10 | ((a & 3) << 2) | ((((high >> i) & 1) << 1) | ((low >> i) & 1))) == 16 + 4 * (a & 3)
            + ((low >> i) & 1) + 2 * ((high >> i) & 1),
        a <= 3 ==> a & 3 == a,
        a & 3 == ((a >> 0) & 1) + 2 * ((a >> 1) & 1),
        (a & 0x10 != 0) == ((a >> 4) & 1 == 1),
        (a & 8 == 0) == !((a >> 3) & 1 == 1),
        (a & 2 == 0) == !((a >> 1) & 1 == 1),
{
}

/// One tile right and one tile left are steps on a ring of 64 columns, two tables wide, and undo
/// each other; the row stays. One line down is a step on the 240 lines of each of two tables; the
/// column stays. From the two rows below those, in the attributes, it runs on to row 0 of the same
/// table.
#[verifier::rlimit(40)]
pub proof fn law_scrolling_steps(v: u16)
    requires
        v <= 0x7FFF,
    ensures
        tile_right(v) <= 0x7FFF,
        across(tile_right(v)) == (across(v) + 1) % 64,
        tile_right(v) / 32 % 32 == v / 32 % 32,
        tile_right(v) / 2048 == v / 2048,
        tile_left(v) <= 0x7FFF,
        across(tile_left(v)) == (across(v) + 63) % 64,
        tile_left(v) / 32 % 32 == v / 32 % 32,
        tile_left(v) / 2048 == v / 2048,
        tile_left(tile_right(v)) == v,
        tile_right(tile_left(v)) == v,
        line_down(v) <= 0x7FFF,
        across(line_down(v)) == across(v),
        ({
            let line = |v: u16| 8 * (v / 32 % 32) + v / 4096;
            let table = |v: u16| v / 2048 % 2;
            &&& line(v) < 239 || 240 <= line(v) < 255 ==> line(line_down(v)) == line(v) + 1
                && table(line_down(v)) == table(v)
            &&& line(v) == 239 ==> line(line_down(v)) == 0 && table(line_down(v)) == 1 - table(v)
            &&& line(v) == 255 ==> line(line_down(v)) == 0 && table(line_down(v)) == table(v)
        }),
{
    lemma_steps(v, tile_right(v), tile_left(v));
    let top = v & !0x7000;
    let row = (top & 0x03E0) >> 5;
    let next: u16 = if row == 29 || row == 31 { 0 } else { (row + 1) as u16 };
    lemma_down(v, top, row, next, line_down(v));
}

proof fn lemma_across(v: u16)
    ensures
        0 <= across(v) < 64,
{
}

#[verifier::rlimit(40)]
proof fn lemma_tiles_left(v: u16, n: int)
    requires
        v <= 0x7FFF,
        0 <= n <= 8,
    ensures
        tiles_left(v, n) <= 0x7FFF,
        across(tiles_left(v, n)) == if across(v) >= n { across(v) - n } else { across(v) - n + 64 },
        tiles_left(v, n) / 32 % 32 == v / 32 % 32,
        tiles_left(v, n) / 2048 == v / 2048,
    decreases n,
{
    if n > 0 {
        lemma_tiles_left(v, n - 1);
        let before = tiles_left(v, n - 1);
        let b = across(before);
        assert(0 <= b < 64) by {
            lemma_across(before);
        }
        assert((b + 63) % 64 == if b >= 1 { b - 1 } else { 63 });
        lemma_steps(before, tile_right(before), tile_left(before));
    } else {
        lemma_across(v);
    }
}

/// The column at which a pixel is, counted from the first tile of the line or on the plane.
#[verifier::rlimit(40)]
proof fn lemma_columns(a: int, n: int, fine: int, x: int, column: int, table: int)
    requires
        0 <= fine < 8,
        0 <= x < 256,
        0 <= column < 32,
        0 <= table < 2,
        column + 32 * table == if a >= n { a - n } else { a - n + 64 },
    ensures
        ({
            let left = 8 * a - 8 * n + fine + x;
            let sum = column + (x + fine) / 8;
            &&& left % 512 / 256 == (table + sum / 32) % 2
            &&& left % 256 / 8 == sum % 32
            &&& left % 8 == (x + fine) % 8
        }),
{
    let left = 8 * a - 8 * n + fine + x;
    let p = (x + fine) % 8;
    let sum = column + (x + fine) / 8;
    let turns = if a >= n { 0int } else { -1 };
    let high = (table + sum / 32) % 2;
    let low = sum % 32;
    let over = (table + sum / 32) / 2;
    assert(left == 512 * turns + 8 * (sum + 32 * table) + p);
    assert(sum + 32 * table == 64 * over + 32 * high + low);
    let rest = 256 * high + 8 * low + p;
    assert(left == (turns + over) * 512 + rest);
    lemma_fundamental_div_mod_converse(left, 512, turns + over, rest);
    lemma_fundamental_div_mod_converse(rest, 256, high, 8 * low + p);
    assert(left == (2 * (turns + over) + high) * 256 + (8 * low + p));
    lemma_fundamental_div_mod_converse(left, 256, 2 * (turns + over) + high, 8 * low + p);
    lemma_fundamental_div_mod_converse(8 * low + p, 8, low, p);
    assert(left == (64 * (turns + over) + 32 * high + low) * 8 + p);
    lemma_fundamental_div_mod_converse(left, 8, 64 * (turns + over) + 32 * high + low, p);
}

/// The first tile of the line, in numbers.
#[verifier::rlimit(40)]
proof fn lemma_line(m: PpuModel, x: int)
    requires
        m.wf(),
        0 <= x < 256,
    ensures
        ({
            let tile = (x + m.fine_x) / 8;
            let start = m.line_start();
            &&& m.tile_table(tile) == m.plane_table(x)
            &&& m.tile_column(tile) == m.plane_column(x)
            &&& (m.window_left() + x) % 8 == (x + m.fine_x) % 8
            &&& 0 <= m.plane_column(x) < 32
            &&& (start >> 5) & 0x1F == m.plane_row()
            &&& 0 <= m.plane_row() < 32
            &&& (start >> 12) & 7 == m.v as int / 4096
            &&& m.v as int / 4096 < 8
            &&& m.tile_table(tile) <= 0x2C00
            &&& (m.plane_table(x) - 0x2000) / 0x400 * 0x400 + 0x2000 == m.plane_table(x)
            &&& m.tile_table(tile) | (((start >> 5) & 0x1F) << 5) | m.tile_column(tile)
                == m.plane_table(x) + 32 * m.plane_row() + m.plane_column(x)
            &&& m.tile_table(tile) | 0x03C0 | ((((start >> 5) & 0x1F) >> 2) << 3) | (m.tile_column(
                tile,
            ) >> 2) == m.plane_table(x) + 0x3C0 + 8 * (m.plane_row() / 4) + m.plane_column(x) / 4
            &&& ((((start >> 5) & 0x1F) & 2) << 1) | (m.tile_column(tile) & 2) == 4 * (m.plane_row()
                / 2 % 2) + 2 * (m.plane_column(x) / 2 % 2)
        }),
{
    let tile = (x + m.fine_x) / 8;
    let start = m.line_start();
    lemma_tiles_left(m.v, m.prefetch_incs as int);
    let sum = (start % 32 + tile) as u16;
    lemma_tile_parts(start, sum);
    lemma_columns(
        across(m.v),
        m.prefetch_incs as int,
        m.fine_x as int,
        x,
        start as int % 32,
        start as int / 1024 % 2,
    );
}

/// The tile and the attributes that a pixel of the line is fetched from are those of its place on
/// the plane.
#[verifier::rlimit(40)]
pub proof fn law_tiles_come_from_the_plane(m: PpuModel, x: int, cart: CartModel)
    requires
        m.wf(),
        0 <= x < 256,
    ensures
        ({
            let tile = (x + m.fine_x) / 8;
            &&& m.tile_table(tile) == m.plane_table(x)
            &&& m.tile_column(tile) == m.plane_column(x)
            &&& m.tile_pattern(tile, cart) == 0x1000 * one_if(bit(m.ctrl, 4)) + 16 * m.memory_byte(
                (m.plane_table(x) + 32 * m.plane_row() + m.plane_column(x)) as u16,
                cart,
            ) + m.v / 4096
        }),
{
    lemma_line(m, x);
    lemma_palette_bits(m.ctrl, 0, 0, 0);
}

/// The palette of the tile at row `r` and column `k` of a table is bits `s` and `s` + 1 of the
/// attribute byte at `$3C0` + 8 (`r` / 4) + `k` / 4 of that table, where `s` is
/// 4 (`r` / 2 mod 2) + 2 (`k` / 2 mod 2): each quarter of the byte's 4 by 4 tiles has two bits of
/// its own. The nametable view gives the tile the same palette.
#[verifier::rlimit(40)]
pub proof fn law_palettes_come_from_quadrants(m: PpuModel, x: int, cart: CartModel)
    requires
        m.wf(),
        0 <= x < 256,
    ensures
        ({
            let r = m.plane_row();
            let k = m.plane_column(x);
            let s = 4 * (r / 2 % 2) + 2 * (k / 2 % 2);
            let attribute = m.memory_byte(
                (m.plane_table(x) + 0x3C0 + 8 * (r / 4) + k / 4) as u16,
                cart,
            );
            let palette = m.tile_palette((x + m.fine_x) / 8, cart);
            &&& palette == bit_pair(attribute, s)
            &&& palette == m.attribute_palette(cart, (m.plane_table(x) - 0x2000) / 0x400, r, k)
        }),
{
    lemma_line(m, x);
    let r = m.plane_row();
    let k = m.plane_column(x);
    let attribute = m.memory_byte((m.plane_table(x) + 0x3C0 + 8 * (r / 4) + k / 4) as u16, cart);
    lemma_palette_bits(attribute, 0, 0, 0);
}

/// A change of the attribute byte changes the palette of a tile if and only if it changes one of
/// the two bits of the tile's quadrant.
#[verifier::rlimit(40)]
pub proof fn law_quadrants_are_apart(m: PpuModel, n: PpuModel, x: int, cart: CartModel)
    requires
        m.wf(),
        n.wf(),
        n == (PpuModel { vram: n.vram, ..m }),
        0 <= x < 256,
    ensures
        ({
            let r = m.plane_row();
            let k = m.plane_column(x);
            let s = (4 * (r / 2 % 2) + 2 * (k / 2 % 2)) as u8;
            let place = (m.plane_table(x) + 0x3C0 + 8 * (r / 4) + k / 4) as u16;
            let old_byte = m.memory_byte(place, cart);
            let new_byte = n.memory_byte(place, cart);
            let tile = (x + m.fine_x) / 8;
            (m.tile_palette(tile, cart) == n.tile_palette(tile, cart)) == (bit(old_byte, s) == bit(
                new_byte,
                s,
            ) && bit(old_byte, (s + 1) as u8) == bit(new_byte, (s + 1) as u8))
        }),
{
    law_palettes_come_from_quadrants(m, x, cart);
    law_palettes_come_from_quadrants(n, x, cart);
}

/// The background at `x` is the pixel of the plane there: its colour is the bit of the low plane
/// and twice that of the high plane, leftmost bit first, in the palette of its quadrant. It is
/// transparent where the colour is 0, where the background is off, and in the leftmost eight
/// columns where those are off.
#[verifier::rlimit(40)]
pub proof fn law_background_shows_the_plane(m: PpuModel, x: int, cart: CartModel)
    requires
        m.wf(),
        0 <= x < 256,
    ensures
        ({
            let r = m.plane_row();
            let k = m.plane_column(x);
            let table = m.plane_table(x);
            let id = m.memory_byte((table + 32 * r + k) as u16, cart);
            let pattern = 0x1000 * one_if(bit(m.ctrl, 4)) + 16 * id + m.v / 4096;
            let i = (7 - (m.window_left() + x) % 8) as u8;
            let color = one_if(bit(cart.chr_byte(pattern as u16), i)) + 2 * one_if(
                bit(cart.chr_byte((pattern + 8) as u16), i),
            );
            let attribute = m.memory_byte((table + 0x3C0 + 8 * (r / 4) + k / 4) as u16, cart);
            let palette = bit_pair(attribute, 4 * (r / 2 % 2) + 2 * (k / 2 % 2));
            let seen = bit(m.mask, 3) && (bit(m.mask, 1) || x >= 8);
            m.background(x, cart) == if seen && color != 0 { 4 * palette + color } else { 0 }
        }),
{
    lemma_line(m, x);
    law_tiles_come_from_the_plane(m, x, cart);
    law_palettes_come_from_quadrants(m, x, cart);
    lemma_palette_bits(m.mask, 0, 0, 0);
    let tile = (x + m.fine_x) / 8;
    let pattern = m.tile_pattern(tile, cart);
    let i = (7 - (m.window_left() + x) % 8) as u8;
    let palette = m.tile_palette(tile, cart);
    lemma_palette_bits(palette, cart.chr_byte(pattern), cart.chr_byte((pattern + 8) as u16), i);
}

/// The picture and the nametable view agree: where the background shows at `x`, its colour is that
/// of the view at the same place of the plane, in the row of tiles and the line that `v` tells.
#[verifier::rlimit(100)]
pub proof fn law_the_view_shows_the_background(m: PpuModel, x: int, cart: CartModel)
    requires
        m.wf(),
        0 <= x < 256,
        m.background(x, cart) != 0,
        m.plane_row() < 30,
    ensures
        m.nametable_pixel(
            cart,
            (m.plane_table(x) - 0x2000) / 0x400,
            (m.window_left() + x) % 256,
            8 * m.plane_row() + m.v / 4096,
        ) == m.view_color(m.background(x, cart) as int),
{
    lemma_line(m, x);
    law_tiles_come_from_the_plane(m, x, cart);
    law_palettes_come_from_quadrants(m, x, cart);
    let r = m.plane_row();
    let fine = m.v as int / 4096;
    let table = (m.plane_table(x) - 0x2000) / 0x400;
    let y = 8 * r + fine;
    let left = m.window_left() + x;
    assert(y / 8 == r && y % 8 == fine);
    assert(left % 256 % 8 == left % 8);
    let tile = (x + m.fine_x) / 8;
    let id = m.memory_byte((0x2000 + table * 0x400 + r * 32 + m.plane_column(x)) as u16, cart);
    let pattern = (if m.ctrl & 0x10 != 0 { 0x1000int } else { 0 }) + id * 16 + fine;
    assert(m.tile_pattern(tile, cart) == pattern) by {
        lemma_palette_bits(m.ctrl, 0, 0, 0);
    }
    let palette = m.tile_palette(tile, cart);
    let i = (7 - left % 8) as u8;
    lemma_palette_bits(palette, cart.chr_byte(pattern as u16), cart.chr_byte((pattern + 8) as u16), i);
    assert(m.background(x, cart) == 4 * palette + tile_color(cart, pattern, left % 8));
}

/// The view of a pattern table shows its 256 tiles in 16 rows of 16: pixel `px` of row `py` of tile
/// `t` is in the palette that begins at entry `base`, or the backdrop where the colour is 0.
#[verifier::rlimit(40)]
pub proof fn law_the_view_shows_all_tiles(
    m: PpuModel,
    cart: CartModel,
    table: int,
    base: int,
    t: int,
    px: int,
    py: int,
)
    requires
        table == 0 || table == 0x1000,
        0 <= t < 256,
        0 <= px < 8,
        0 <= py < 8,
    ensures
        ({
            let i = (7 - px) as u8;
            let color = one_if(bit(cart.chr_byte((table + 16 * t + py) as u16), i)) + 2 * one_if(
                bit(cart.chr_byte((table + 16 * t + py + 8) as u16), i),
            );
            m.pattern_pixel(cart, table, base, 8 * (t % 16) + px, 8 * (t / 16) + py)
                == m.view_color(if color == 0 { 0 } else { base + color })
        }),
{
    let x = 8 * (t % 16) + px;
    let y = 8 * (t / 16) + py;
    lemma_fundamental_div_mod_converse(x, 8, t % 16, px);
    lemma_fundamental_div_mod_converse(y, 8, t / 16, py);
    assert((y / 8) * 16 + x / 8 == t);
    let pattern = table + 16 * t + py;
    lemma_palette_bits(
        0,
        cart.chr_byte(pattern as u16),
        cart.chr_byte((pattern + 8) as u16),
        (7 - px) as u8,
    );
}

} // verus!

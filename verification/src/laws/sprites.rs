//! What the sprites show, and how they meet the background.

use vstd::prelude::*;

use super::background::lemma_palette_bits;
use super::words::{bit, lemma_fields, lemma_shifts, one_if};
use crate::cartridge::CartModel;
use crate::ppu::PpuModel;

verus! {

impl PpuModel {
    /// The Y, tile, attribute and X byte of sprite `n`.
    pub open spec fn sprite_y(self, n: int) -> int {
        self.oam[4 * n] as int
    }

    pub open spec fn sprite_tile(self, n: int) -> u8 {
        self.oam[4 * n + 1]
    }

    pub open spec fn sprite_attributes(self, n: int) -> u8 {
        self.oam[4 * n + 2]
    }

    pub open spec fn sprite_x(self, n: int) -> int {
        self.oam[4 * n + 3] as int
    }

    /// Sprites are 8 lines high, or 16.
    pub open spec fn rows(self) -> int {
        if bit(self.ctrl, 5) { 16 } else { 8 }
    }

    /// How many of the first `n` sprites have a row on the line: from one below Y on.
    pub open spec fn count_on(self, n: int, line: int) -> int
        decreases n,
    {
        if n <= 0 {
            0
        } else {
            let y = self.sprite_y(n - 1);
            self.count_on(n - 1, line) + one_if(y + 1 <= line < y + 1 + self.rows())
        }
    }

    /// Sprite `n` is among the eight that the line has room for.
    pub open spec fn has_room(self, n: int, line: int) -> bool {
        let y = self.sprite_y(n);
        y + 1 <= line < y + 1 + self.rows() && self.count_on(n, line) < 8
    }

    /// Sprite 0 is the sprite that shows at `x`, and the background has a colour there.
    pub open spec fn meets(self, line: int, x: int, cart: CartModel) -> bool {
        self.sprite_at(line, x, cart) == Some(0int) && self.background(x, cart) != 0
    }
}

/// Two units that differ in bit 7 of a sprite's attributes alone show it upside down of each other:
/// row `r` of one is the row of the other that is as far from the bottom.
#[verifier::rlimit(40)]
pub proof fn law_vertical_flip_mirrors(
    m: PpuModel,
    n: PpuModel,
    k: int,
    r: int,
    x: int,
    cart: CartModel,
)
    requires
        m.wf(),
        0 <= k < 64,
        n == (PpuModel { oam: m.oam.update(4 * k + 2, n.sprite_attributes(k)), ..m }),
        bit(n.sprite_attributes(k), 7) != bit(m.sprite_attributes(k), 7),
        forall|i: u8|
            i < 7 ==> #[trigger] bit(n.sprite_attributes(k), i) == bit(m.sprite_attributes(k), i),
        0 <= r < m.rows(),
    ensures
        ({
            let line = m.sprite_y(k) + 1 + r;
            let other = m.sprite_y(k) + 1 + (m.rows() - 1 - r);
            &&& n.sprite_pattern(k, line) == m.sprite_pattern(k, other)
            &&& n.sprite_color(k, line, x, cart) == m.sprite_color(k, other, x, cart)
        }),
{
    let a = m.sprite_attributes(k);
    let b = n.sprite_attributes(k);
    lemma_shifts(m.ctrl);
    lemma_shifts(a);
    lemma_shifts(b);
    lemma_palette_bits(a, 0, 0, 0);
    lemma_palette_bits(b, 0, 0, 0);
    assert(bit(b, 0) == bit(a, 0) && bit(b, 1) == bit(a, 1) && bit(b, 6) == bit(a, 6));
    assert(a & 3 == b & 3);
}

/// Two units that differ in bit 6 of a sprite's attributes alone show each of its rows the other
/// way round.
#[verifier::rlimit(40)]
pub proof fn law_horizontal_flip_mirrors(
    m: PpuModel,
    n: PpuModel,
    k: int,
    line: int,
    p: int,
    cart: CartModel,
)
    requires
        m.wf(),
        0 <= k < 64,
        n == (PpuModel { oam: m.oam.update(4 * k + 2, n.sprite_attributes(k)), ..m }),
        bit(n.sprite_attributes(k), 6) != bit(m.sprite_attributes(k), 6),
        forall|i: u8|
            i < 8 && i != 6 ==> #[trigger] bit(n.sprite_attributes(k), i) == bit(
                m.sprite_attributes(k),
                i,
            ),
        0 <= p < 8,
        bit(m.mask, 2) || m.sprite_x(k) >= 8,
    ensures
        n.sprite_color(k, line, m.sprite_x(k) + p, cart) == m.sprite_color(
            k,
            line,
            m.sprite_x(k) + 7 - p,
            cart,
        ),
{
    let a = m.sprite_attributes(k);
    let b = n.sprite_attributes(k);
    lemma_shifts(m.mask);
    lemma_shifts(a);
    lemma_shifts(b);
    lemma_palette_bits(a, 0, 0, 0);
    lemma_palette_bits(b, 0, 0, 0);
    assert(bit(b, 0) == bit(a, 0) && bit(b, 1) == bit(a, 1) && bit(b, 7) == bit(a, 7));
    assert(a & 3 == b & 3);
}

/// Row `r` of a sprite that is not upside down is row `r` of its tile, in the table that PPUCTRL
/// selects. A tall sprite has its upper eight rows from the even tile and its lower eight from the
/// next, in the table that the lowest bit of the tile number selects.
#[verifier::rlimit(40)]
pub proof fn law_rows_come_from_tiles(m: PpuModel, k: int, r: int)
    requires
        m.wf(),
        0 <= k < 64,
        0 <= r < m.rows(),
        !bit(m.sprite_attributes(k), 7),
    ensures
        ({
            let tile = m.sprite_tile(k);
            m.sprite_pattern(k, m.sprite_y(k) + 1 + r) == if m.rows() == 8 {
                0x1000 * one_if(bit(m.ctrl, 3)) + 16 * tile + r
            } else {
                0x1000 * (tile as int % 2) + 16 * (tile - tile as int % 2) + if r < 8 {
                    r
                } else {
                    16 + (r - 8)
                }
            }
        }),
{
    lemma_shifts(m.ctrl);
    lemma_shifts(m.sprite_attributes(k));
    let tile = m.sprite_tile(k);
    assert(tile & 0xFE == tile - tile % 2 && (tile & 1 != 0) == (tile % 2 == 1)) by {
        lemma_fields(tile);
    }
}

/// A sprite that is not mirrored shows its row from X on, leftmost bit first: the bit of the low
/// plane and twice that of the high plane, in one of the four sprite palettes. It is transparent
/// where the colour is 0, and in the leftmost eight columns where those are off.
#[verifier::rlimit(40)]
pub proof fn law_sprites_show_their_row(m: PpuModel, k: int, line: int, x: int, cart: CartModel)
    requires
        m.wf(),
        0 <= k < 64,
        !bit(m.sprite_attributes(k), 6),
    ensures
        ({
            let pattern = m.sprite_pattern(k, line);
            let p = x - m.sprite_x(k);
            let color = one_if(bit(cart.chr_byte(pattern), (7 - p) as u8)) + 2 * one_if(
                bit(cart.chr_byte((pattern + 8) as u16), (7 - p) as u8),
            );
            let palette = one_if(bit(m.sprite_attributes(k), 0)) + 2 * one_if(
                bit(m.sprite_attributes(k), 1),
            );
            let seen = 0 <= p < 8 && (bit(m.mask, 2) || x >= 8);
            m.sprite_color(k, line, x, cart) == if seen && color != 0 {
                16 + 4 * palette + color
            } else {
                0
            }
        }),
{
    let pattern = m.sprite_pattern(k, line);
    let p = x - m.sprite_x(k);
    let a = m.sprite_attributes(k);
    lemma_shifts(m.mask);
    lemma_shifts(a);
    if 0 <= p < 8 {
        lemma_palette_bits(
            a,
            cart.chr_byte(pattern),
            cart.chr_byte((pattern + 8) as u16),
            (7 - p) as u8,
        );
    }
}

/// A line shows the first eight sprites that have a row on it, and overflows if there are more.
#[verifier::rlimit(40)]
pub proof fn law_a_line_shows_eight_sprites(m: PpuModel, n: int, line: int)
    requires
        m.wf(),
        0 <= n <= 64,
    ensures
        m.shown(n, line) == if m.count_on(n, line) < 8 { m.count_on(n, line) } else { 8 },
        m.overflows(n, line) == (m.count_on(n, line) > 8),
        n < 64 ==> (m.on_line(n, line) && m.shown(n, line) < 8) == m.has_room(n, line),
    decreases n,
{
    lemma_shifts(m.ctrl);
    if n > 0 {
        law_a_line_shows_eight_sprites(m, n - 1, line);
    }
}

/// The sprite at `x` is the first in memory of those that have room on the line and a colour there;
/// there is none if no such sprite is, or sprites are off.
#[verifier::rlimit(40)]
pub proof fn law_the_first_sprite_shows(m: PpuModel, line: int, x: int, cart: CartModel, s: int)
    requires
        m.wf(),
        0 <= s < 64,
    ensures
        (m.sprite_at(line, x, cart) == Some(s)) == {
            &&& bit(m.mask, 4)
            &&& m.has_room(s, line)
            &&& m.sprite_color(s, line, x, cart) != 0
            &&& forall|k: int|
                0 <= k < s ==> !(m.has_room(k, line) && #[trigger] m.sprite_color(k, line, x, cart)
                    != 0)
        },
        (m.sprite_at(line, x, cart) is None) == (!bit(m.mask, 4) || forall|k: int|
            0 <= k < 64 ==> !(m.has_room(k, line) && #[trigger] m.sprite_color(k, line, x, cart)
                != 0)),
{
    lemma_shifts(m.mask);
    lemma_top(m, 64, line, x, cart);
}

proof fn lemma_top(m: PpuModel, n: int, line: int, x: int, cart: CartModel)
    requires
        m.wf(),
        0 <= n <= 64,
    ensures
        match m.top_sprite(n, line, x, cart) {
            Some(s) => {
                &&& 0 <= s < n
                &&& m.has_room(s, line)
                &&& m.sprite_color(s, line, x, cart) != 0
                &&& forall|k: int|
                    0 <= k < s ==> !(m.has_room(k, line) && #[trigger] m.sprite_color(
                        k,
                        line,
                        x,
                        cart,
                    ) != 0)
            },
            None => forall|k: int|
                0 <= k < n ==> !(m.has_room(k, line) && #[trigger] m.sprite_color(k, line, x, cart)
                    != 0),
        },
    decreases n,
{
    if n > 0 {
        lemma_top(m, n - 1, line, x, cart);
        law_a_line_shows_eight_sprites(m, n - 1, line);
    }
}

/// Where both have a colour, the sprite shows if bit 5 of its attributes is clear and the
/// background if it is set. Where one has a colour, that one shows; where none has, the backdrop.
#[verifier::rlimit(40)]
pub proof fn law_sprites_are_before_or_behind(m: PpuModel, line: int, x: int, cart: CartModel)
    requires
        m.wf(),
    ensures
        ({
            let back = m.background(x, cart);
            match m.sprite_at(line, x, cart) {
                Some(s) => {
                    let front = m.sprite_color(s, line, x, cart);
                    &&& 0 <= s < 64
                    &&& front != 0
                    &&& m.pixel(line, x, cart) == if back != 0 && bit(m.sprite_attributes(s), 5) {
                        back
                    } else {
                        front
                    }
                },
                None => m.pixel(line, x, cart) == back,
            }
        }),
{
    lemma_top(m, 64, line, x, cart);
    if let Some(s) = m.sprite_at(line, x, cart) {
        lemma_shifts(m.sprite_attributes(s));
    }
}

/// Sprite 0 meets the background at the first pixel where it is the sprite that shows and the
/// background has a colour; the last pixel of the line does not count. The dot is one more.
pub proof fn law_the_first_meeting_is_the_hit(m: PpuModel, line: u16, cart: CartModel, x: int)
    requires
        m.wf(),
        m.rendering(),
        0 <= x < 255,
    ensures
        ({
            let dot = m.rendered(line, cart).sprite0_hit_dot;
            &&& (dot == x + 1) == (m.meets(line as int, x, cart) && forall|i: int|
                0 <= i < x ==> !(#[trigger] m.meets(line as int, i, cart)))
            &&& (dot == 0) == forall|i: int|
                0 <= i < 255 ==> !(#[trigger] m.meets(line as int, i, cart))
        }),
{
    lemma_hit(m, 255, line as int, cart);
}

proof fn lemma_hit(m: PpuModel, n: int, line: int, cart: CartModel)
    requires
        0 <= n <= 255,
    ensures
        ({
            let dot = m.hit_dot(n, line, cart);
            &&& 0 <= dot <= n
            &&& dot != 0 ==> m.meets(line, dot - 1, cart) && forall|i: int|
                0 <= i < dot - 1 ==> !#[trigger] m.meets(line, i, cart)
            &&& dot == 0 ==> forall|i: int| 0 <= i < n ==> !#[trigger] m.meets(line, i, cart)
        }),
    decreases n,
{
    if n > 0 {
        lemma_hit(m, n - 1, line, cart);
    }
}

/// Painting a line changes its 256 pixels and no other: each shows the palette entry of its index,
/// or the backdrop while rendering is off. Without output the picture stays.
#[verifier::rlimit(40)]
pub proof fn law_a_line_is_painted(m: PpuModel, line: u16, cart: CartModel, x: int, y: int, c: int)
    requires
        m.wf(),
        line < 240,
        0 <= x < 256,
        0 <= y < 240,
        0 <= c < 4,
    ensures
        ({
            let d = m.rendered(line, cart);
            let shown = bit(m.mask, 3) || bit(m.mask, 4);
            &&& d.screen.len() == m.screen.len()
            &&& d.screen[(y * 256 + x) * 4 + c] == if m.output_enabled && y == line {
                m.color(if shown { m.pixel(line as int, x, cart) as int } else { 0 })[c]
            } else {
                m.screen[(y * 256 + x) * 4 + c]
            }
            &&& d.overflow_pending == (shown && m.count_on(64, line as int) > 8)
            &&& !shown ==> d.sprite0_hit_dot == 0
        }),
{
    lemma_shifts(m.mask);
    lemma_fields(m.mask);
    law_a_line_shows_eight_sprites(m, 64, line as int);
    let i = (y * 256 + x) * 4 + c;
    assert(i == y * 1024 + (x * 4 + c));
    if y == line {
        assert((i - y * 1024) / 4 == x);
        assert(i % 4 == c);
    } else if y < line {
        assert((y + 1) * 1024 <= line * 1024);
    } else {
        assert((line + 1) * 1024 <= y * 1024);
    }
}

/// An index shows its palette entry; the first entry of a sprite palette is that of the background
/// palette four places before.
#[verifier::rlimit(40)]
pub proof fn law_backdrops_are_shared(m: PpuModel, i: int)
    requires
        m.wf(),
        0 <= i < 16,
    ensures
        i % 4 == 0 ==> m.color(16 + i) == m.color(i) && m.view_color(16 + i) == m.view_color(i),
        ({
            let gray = bit(m.mask, 0);
            &&& m.color(i) == crate::ppu::palette::rgba(m.palette[i], gray, m.mask >> 5)
            &&& i % 4 != 0 ==> m.color(16 + i) == crate::ppu::palette::rgba(
                m.palette[16 + i],
                gray,
                m.mask >> 5,
            )
            &&& m.view_color(i) == crate::ppu::palette::rgba(m.palette[i], false, 0)
            &&& i % 4 != 0 ==> m.view_color(16 + i) == crate::ppu::palette::rgba(
                m.palette[16 + i],
                false,
                0,
            )
        }),
{
    lemma_shifts(m.mask);
}

} // verus!

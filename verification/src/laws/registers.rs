//! The picture unit as the CPU sees it: registers, memory and the beam.

use vstd::prelude::*;

use super::background::across;
use super::words::{bit, lemma_fields, lemma_joined, lemma_shifts, lemma_word_fields};
use crate::cartridge::{CartModel, Mirroring};
use crate::ppu::{line_down, nametable_position, palette_position, tile_right, PpuModel};

verus! {

proof fn lemma_position_bits(t: u16, v: u16, x: u16)
    by (bit_vector)
    requires
        t <= 0x7FFF,
        v <= 0x7FFF,
        x < 256,
    ensures
        ((t & !0x001F) | (x >> 3)) % 32 == x / 8,
        ((t & !0x001F) | (x >> 3)) / 32 == t / 32,
        ((t & !0x73E0) | ((x & 7) << 12) | ((x >> 3) << 5)) % 32 == t % 32,
        ((t & !0x73E0) | ((x & 7) << 12) | ((x >> 3) << 5)) / 32 % 32 == x / 8,
        ((t & !0x73E0) | ((x & 7) << 12) | ((x >> 3) << 5)) / 1024 % 4 == t / 1024 % 4,
        ((t & !0x73E0) | ((x & 7) << 12) | ((x >> 3) << 5)) / 4096 == x % 8,
        (t & 0x00FF) | ((x & 0x3F) << 8) == t % 256 + 256 * (x % 64),
        (t & 0x7F00) | x == t - t % 256 + x,
        ((t & !0x0C00) | ((x & 3) << 10)) % 1024 == t % 1024,
        ((t & !0x0C00) | ((x & 3) << 10)) / 1024 % 4 == x % 4,
        ((t & !0x0C00) | ((x & 3) << 10)) / 4096 == t / 4096,
        ((v & !0x041F) | (t & 0x041F)) % 32 == t % 32,
        ((v & !0x041F) | (t & 0x041F)) / 1024 % 2 == t / 1024 % 2,
        ((v & !0x041F) | (t & 0x041F)) / 32 % 32 == v / 32 % 32,
        ((v & !0x041F) | (t & 0x041F)) / 2048 == v / 2048,
        ((v & !0x7BE0) | (t & 0x7BE0)) % 32 == v % 32,
        ((v & !0x7BE0) | (t & 0x7BE0)) / 1024 % 2 == v / 1024 % 2,
        ((v & !0x7BE0) | (t & 0x7BE0)) / 32 % 32 == t / 32 % 32,
        ((v & !0x7BE0) | (t & 0x7BE0)) / 2048 == t / 2048,
{
}

/// PPUCTRL keeps its value and puts its lowest two bits, the table, into the position to come. A
/// change that raises the NMI line asks for an NMI, one instruction later.
#[verifier::rlimit(40)]
pub proof fn law_control_is_written(m: PpuModel, reg: u16, value: u8, cart: CartModel)
    requires
        m.wf(),
        reg % 8 == 0,
    ensures
        ({
            let d = m.register_written(reg, value, cart);
            let line = bit(m.status, 7) && bit(value, 7);
            &&& d.ctrl == value
            &&& d.io_latch == value
            &&& d.t % 1024 == m.t % 1024
            &&& d.t / 1024 % 4 == value % 4
            &&& d.t / 4096 == m.t / 4096
            &&& d.nmi_line == line
            &&& d.nmi_pending == (m.nmi_pending || (line && !m.nmi_line))
            &&& d.nmi_delay == ((line && !m.nmi_line) || m.nmi_delay)
            &&& d == PpuModel {
                ctrl: value,
                io_latch: value,
                t: d.t,
                nmi_line: d.nmi_line,
                nmi_pending: d.nmi_pending,
                nmi_delay: d.nmi_delay,
                ..m
            }
        }),
{
    reveal(PpuModel::register_written);
    lemma_word_fields(reg);
    lemma_position_bits(m.t, m.v, value as u16);
    lemma_shifts(value);
    lemma_shifts(m.status);
}

/// PPUMASK and OAMADDR keep their value; PPUSTATUS cannot be written. Every write leaves its value
/// on the register bus.
#[verifier::rlimit(40)]
pub proof fn law_plain_registers_are_written(m: PpuModel, reg: u16, value: u8, cart: CartModel)
    requires
        reg % 8 == 1 || reg % 8 == 2 || reg % 8 == 3,
    ensures
        m.register_written(reg, value, cart) == if reg % 8 == 1 {
            PpuModel { mask: value, io_latch: value, ..m }
        } else if reg % 8 == 2 {
            PpuModel { io_latch: value, ..m }
        } else {
            PpuModel { oam_addr: value, io_latch: value, ..m }
        },
{
    reveal(PpuModel::register_written);
    lemma_word_fields(reg);
}

/// OAMDATA writes one byte of the sprites and moves on to the next, around at the end; a read gives
/// the byte and stays. The three bits that sprites do not have read as 0.
#[verifier::rlimit(40)]
pub proof fn law_sprite_bytes_are_written(m: PpuModel, reg: u16, value: u8, cart: CartModel, i: int)
    requires
        m.wf(),
        reg % 8 == 4,
        0 <= i < 256,
    ensures
        ({
            let d = m.register_written(reg, value, cart);
            let byte = m.oam[m.oam_addr as int];
            &&& d.oam[i] == if i == m.oam_addr { value } else { m.oam[i] }
            &&& d.oam.len() == 256
            &&& d.oam_addr == (m.oam_addr + 1) % 256
            &&& d == PpuModel { oam: d.oam, oam_addr: d.oam_addr, io_latch: value, ..m }
            &&& m.register_peek(reg) == if m.oam_addr % 4 == 2 {
                byte - 4 * (byte / 4 % 8)
            } else {
                byte as int
            }
            &&& m.register_read(reg, cart) == (PpuModel { io_latch: m.register_peek(reg), ..m })
        }),
{
    reveal(PpuModel::register_written);
    reveal(PpuModel::register_read);
    let byte = m.oam[m.oam_addr as int];
    assert(reg & 7 == 4) by {
        lemma_word_fields(reg);
    }
    assert(m.oam_addr & 3 == m.oam_addr % 4) by {
        lemma_fields(m.oam_addr);
    }
    assert(byte & 0xE3 == byte - 4 * (byte / 4 % 8)) by {
        lemma_fields(byte);
    }
}

/// The first write of PPUSCROLL is the horizontal position: the tile goes to the position to come,
/// the rest to the fine position. The second is the vertical one.
#[verifier::rlimit(40)]
pub proof fn law_scroll_is_written(m: PpuModel, reg: u16, value: u8, cart: CartModel)
    requires
        m.wf(),
        reg % 8 == 5,
    ensures
        ({
            let d = m.register_written(reg, value, cart);
            &&& d.w == !m.w
            &&& d == PpuModel { w: d.w, t: d.t, fine_x: d.fine_x, io_latch: value, ..m }
            &&& !m.w ==> {
                &&& d.t % 32 == value / 8
                &&& d.t / 32 == m.t / 32
                &&& d.fine_x == value % 8
            }
            &&& m.w ==> {
                &&& d.t / 32 % 32 == value / 8
                &&& d.t / 4096 == value % 8
                &&& d.t % 32 == m.t % 32
                &&& d.t / 1024 % 4 == m.t / 1024 % 4
                &&& d.fine_x == m.fine_x
            }
        }),
{
    reveal(PpuModel::register_written);
    assert(reg & 7 == 5) by {
        lemma_word_fields(reg);
    }
    assert(value & 7 == value % 8) by {
        lemma_fields(value);
    }
    let x = value as u16;
    if m.w {
        let t = (m.t & !0x73E0) | ((x & 7) << 12) | ((x >> 3) << 5);
        assert(t / 32 % 32 == x / 8 && t / 4096 == x % 8 && t % 32 == m.t % 32 && t / 1024 % 4
            == m.t / 1024 % 4) by {
            lemma_position_bits(m.t, m.v, x);
        }
    } else {
        let t = (m.t & !0x001F) | (x >> 3);
        assert(t % 32 == x / 8 && t / 32 == m.t / 32) by {
            lemma_position_bits(m.t, m.v, x);
        }
    }
}

/// Two writes of PPUADDR, high byte first, set the address; the top two bits are dropped. Until the
/// second it stays.
#[verifier::rlimit(40)]
pub proof fn law_address_is_written(m: PpuModel, reg: u16, high: u8, low: u8, cart: CartModel)
    requires
        m.wf(),
        !m.w,
        reg % 8 == 6,
    ensures
        ({
            let c = m.register_written(reg, high, cart);
            let d = c.register_written(reg, low, cart);
            &&& c == PpuModel { w: true, t: c.t, io_latch: high, ..m }
            &&& d.v == 256 * (high % 64) + low
            &&& d.t == d.v
            &&& d == PpuModel { v: d.v, t: d.t, io_latch: low, ..m }
        }),
{
    reveal(PpuModel::register_written);
    assert(reg & 7 == 6) by {
        lemma_word_fields(reg);
    }
    let t = (m.t & 0x00FF) | (((high as u16) & 0x3F) << 8);
    assert(t == m.t % 256 + 256 * (high % 64)) by {
        lemma_position_bits(m.t, m.v, high as u16);
    }
    assert((t & 0x7F00) | (low as u16) == t - t % 256 + low) by {
        lemma_position_bits(t, m.v, low as u16);
    }
    assert(t - t % 256 == 256 * (high % 64));
}

/// Every access to PPUDATA moves the address by 1, or by 32 if PPUCTRL says so.
#[verifier::rlimit(40)]
pub proof fn law_data_moves_the_address(m: PpuModel, reg: u16, value: u8, cart: CartModel)
    requires
        m.wf(),
        reg % 8 == 7,
    ensures
        ({
            let step = if bit(m.ctrl, 2) { 32int } else { 1 };
            &&& m.register_written(reg, value, cart).v == (m.v + step) % 0x8000
            &&& m.register_read(reg, cart).v == (m.v + step) % 0x8000
        }),
{
    reveal(PpuModel::register_written);
    reveal(PpuModel::register_read);
    lemma_word_fields(reg);
    lemma_shifts(m.ctrl);
    let step: u16 = if m.ctrl & 4 != 0 { 32 } else { 1 };
    lemma_word_fields(m.v.wrapping_add(step));
}

/// A read of PPUDATA below the palette gives what the read before fetched, and fetches the byte at
/// the address, so the next read gives it. In the palette it gives the entry at once, with the top
/// two bits of the register bus, and fetches the nametable byte that lies under it.
#[verifier::rlimit(40)]
pub proof fn law_data_is_read_behind(m: PpuModel, reg: u16, cart: CartModel)
    requires
        m.wf(),
        reg % 8 == 7,
    ensures
        ({
            let a = m.v as int % 0x4000;
            let d = m.register_read(reg, cart);
            let entry = m.memory_byte(a as u16, cart);
            &&& d.io_latch == m.register_peek(reg)
            &&& a < 0x3F00 ==> m.register_peek(reg) == m.data_buffer
            &&& a < 0x3F00 ==> d.data_buffer == m.memory_byte(a as u16, cart)
            &&& a >= 0x3F00 ==> m.register_peek(reg) == entry + 64 * (m.io_latch / 64)
            &&& a >= 0x3F00 ==> d.data_buffer == m.memory_byte((a - 0x1000) as u16, cart)
            &&& d == PpuModel {
                v: d.v,
                data_buffer: d.data_buffer,
                io_latch: d.io_latch,
                ..m
            }
        }),
{
    reveal(PpuModel::register_read);
    assert(reg & 7 == 7) by {
        lemma_word_fields(reg);
    }
    let a = m.v & 0x3FFF;
    assert(a == m.v % 0x4000) by {
        lemma_word_fields(m.v);
    }
    assert(a & 0x3FFF == a) by {
        lemma_word_fields(a);
    }
    if a >= 0x3F00 {
        assert(a & 0x2FFF == a - 0x1000) by {
            lemma_word_fields(a);
        }
        lemma_joined(m.palette[palette_position(a)], m.io_latch);
    }
}

/// A read of PPUSTATUS gives its three flags over the low bits of the register bus, ends vertical
/// blank, and makes the next scroll or address write a first one. An NMI that was asked for stays.
#[verifier::rlimit(40)]
pub proof fn law_status_is_read(m: PpuModel, reg: u16, cart: CartModel)
    requires
        reg % 8 == 2,
    ensures
        ({
            let d = m.register_read(reg, cart);
            let value = m.register_peek(reg);
            &&& value == 32 * (m.status / 32) + m.io_latch % 32
            &&& d.io_latch == value
            &&& d.status == m.status % 128
            &&& !d.w
            &&& !d.nmi_line
            &&& d == PpuModel {
                status: d.status,
                w: false,
                io_latch: value,
                nmi_line: false,
                ..m
            }
        }),
{
    reveal(PpuModel::register_read);
    lemma_word_fields(reg);
    lemma_fields(m.status);
    lemma_fields(m.status & !0x80);
    lemma_joined(m.status, m.io_latch);
}

/// The other registers cannot be read: they give what was last on the register bus.
#[verifier::rlimit(40)]
pub proof fn law_other_registers_give_the_bus(m: PpuModel, reg: u16, cart: CartModel)
    requires
        reg % 8 != 2 && reg % 8 != 4 && reg % 8 != 7,
    ensures
        m.register_peek(reg) == m.io_latch,
        m.register_read(reg, cart) == m,
{
    reveal(PpuModel::register_read);
    lemma_word_fields(reg);
}

/// The four nametables are two memories. Two addresses are the same byte if and only if they have
/// the same place in their table, and their tables share a memory: one beside the other when
/// mirrored horizontally, one above the other when mirrored vertically, and all on a single screen.
#[verifier::rlimit(40)]
pub proof fn law_nametables_are_mirrored(a: u16, b: u16, mirroring: Mirroring)
    requires
        0x2000 <= a < 0x3F00,
        0x2000 <= b < 0x3F00,
    ensures
        ({
            let left = |a: u16| a / 0x400 % 2;
            let upper = |a: u16| a / 0x800 % 2;
            let together = match mirroring {
                Mirroring::Horizontal => upper(a) == upper(b),
                Mirroring::Vertical | Mirroring::FourScreen => left(a) == left(b),
                _ => true,
            };
            &&& (nametable_position(a, mirroring) == nametable_position(b, mirroring)) == (a % 0x400
                == b % 0x400 && together)
            &&& 0 <= nametable_position(a, mirroring) < 0x800
            &&& mirroring == Mirroring::SingleScreenLower ==> nametable_position(a, mirroring)
                < 0x400
            &&& mirroring == Mirroring::SingleScreenUpper ==> nametable_position(a, mirroring)
                >= 0x400
            &&& nametable_position(0x2000, Mirroring::Horizontal) == 0
            &&& nametable_position(0x2000, Mirroring::Vertical) == 0
        }),
{
    lemma_table_place(a, mirroring);
    lemma_table_place(b, mirroring);
    lemma_table_place(0x2000, Mirroring::Horizontal);
    lemma_table_place(0x2000, Mirroring::Vertical);
}

#[verifier::rlimit(40)]
proof fn lemma_table_place(a: u16, mirroring: Mirroring)
    requires
        0x2000 <= a < 0x3F00,
    ensures
        nametable_position(a, mirroring) == a % 0x400 + 0x400 * match mirroring {
            Mirroring::Horizontal => a / 0x800 % 2,
            Mirroring::Vertical | Mirroring::FourScreen => a / 0x400 % 2,
            Mirroring::SingleScreenLower => 0,
            Mirroring::SingleScreenUpper => 1,
        },
{
    let index = (a - 0x2000) as u16;
    assert(index & 0xFFF == index % 0x1000) by {
        lemma_word_fields(index);
    }
    assert(a.wrapping_sub(0x2000) == index);
    assert(index % 0x1000 / 0x400 / 2 == a / 0x800 % 2);
    assert(index % 0x1000 / 0x400 % 2 == a / 0x400 % 2);
    assert(index % 0x1000 % 0x400 == a % 0x400);
}

/// What is written to the nametables or the palette reads back, at its address and at every address
/// that is the same byte; no other byte changes. Palette entries keep six bits, and with grayscale
/// on read as one of four grays.
#[verifier::rlimit(40)]
pub proof fn law_picture_memory_is_written(
    m: PpuModel,
    addr: u16,
    other: u16,
    value: u8,
    cart: CartModel,
)
    requires
        m.wf(),
        0x2000 <= addr < 0x4000,
        0x2000 <= other < 0x4000,
    ensures
        ({
            let d = m.memory_written(addr, value, cart);
            let palette = addr >= 0x3F00;
            let read = if !palette {
                value as int
            } else if bit(m.mask, 0) {
                16 * (value as int / 16 % 4)
            } else {
                value as int % 64
            };
            let same = if palette {
                other >= 0x3F00 && (addr % 32 == other % 32 || (addr % 16 == other % 16 && addr % 4
                    == 0))
            } else {
                other < 0x3F00 && nametable_position(addr, cart.mirrors()) == nametable_position(
                    other,
                    cart.mirrors(),
                )
            };
            &&& d.memory_byte(addr, cart) == read
            &&& d.memory_byte(other, cart) == if same {
                read
            } else {
                m.memory_byte(other, cart) as int
            }
            &&& d == PpuModel { vram: d.vram, palette: d.palette, ..m }
        }),
{
    lemma_place(addr);
    lemma_place(other);
    assert((m.mask & 1 != 0) == bit(m.mask, 0)) by {
        lemma_shifts(m.mask);
    }
    lemma_joined(value, 0);
    if addr < 0x3F00 {
        lemma_table_place(addr, cart.mirrors());
    }
    if other < 0x3F00 {
        lemma_table_place(other, cart.mirrors());
    }
}

#[verifier::rlimit(40)]
proof fn lemma_place(addr: u16)
    requires
        addr < 0x4000,
    ensures
        addr & 0x3FFF == addr,
        palette_position(addr) == if addr % 4 == 0 { addr as int % 16 } else { addr as int % 32 },
{
    lemma_word_fields(addr);
}

/// Below the nametables are the patterns of the cartridge, and addresses repeat every 16 KB.
#[verifier::rlimit(40)]
pub proof fn law_patterns_are_below(m: PpuModel, addr: u16, cart: CartModel)
    ensures
        addr < 0x2000 ==> m.memory_byte(addr, cart) == cart.chr_byte(addr),
        addr < 0xC000 ==> m.memory_byte((addr + 0x4000) as u16, cart) == m.memory_byte(addr, cart),
{
    assert(addr & 0x3FFF == addr % 0x4000) by {
        lemma_word_fields(addr);
    }
    if addr < 0xC000 {
        let next = (addr + 0x4000) as u16;
        assert(next & 0x3FFF == next % 0x4000) by {
            lemma_word_fields(next);
        }
        assert(next % 0x4000 == addr % 0x4000);
    }
}

/// A write of PPUDATA reaches the byte at the address: pattern memory through the cartridge, the
/// nametables and the palette in the unit.
#[verifier::rlimit(40)]
pub proof fn law_data_is_written(m: PpuModel, reg: u16, value: u8, cart: CartModel)
    requires
        m.wf(),
        reg % 8 == 7,
    ensures
        ({
            let a = (m.v as int % 0x4000) as u16;
            let d = m.register_written(reg, value, cart);
            let n = m.memory_written(a, value, cart);
            &&& a >= 0x2000 ==> d.vram == n.vram && d.palette == n.palette && m.cart_written(
                reg,
                value,
                cart,
            ) == cart
            &&& a < 0x2000 ==> d.vram == m.vram && d.palette == m.palette && m.cart_written(
                reg,
                value,
                cart,
            ) == cart.chr_written(a, value)
            &&& d == PpuModel { v: d.v, vram: d.vram, palette: d.palette, io_latch: value, ..m }
        }),
{
    reveal(PpuModel::register_written);
    lemma_word_fields(reg);
    lemma_word_fields(m.v);
    lemma_word_fields(m.v & 0x3FFF);
}

/// Where the beam is, counted in dots from the start of the frame.
pub open spec fn beam(m: PpuModel) -> int {
    m.scanline * 341 + m.cycle
}

/// The beam goes through 262 lines of 341 dots, one dot at a time, and starts over; with rendering
/// on, odd frames are one dot shorter. Frames are even and odd in turn.
#[verifier::rlimit(40)]
pub proof fn law_the_beam_moves(m: PpuModel, cart: CartModel)
    requires
        m.wf(),
    ensures
        ({
            let d = m.ticked(cart);
            let on = bit(m.mask, 3) || bit(m.mask, 4);
            let last = beam(m) == 341 * 262 - 1 || (beam(m) == 341 * 262 - 2 && m.odd_frame && on);
            &&& beam(d) == if last { 0 } else { beam(m) + 1 }
            &&& d.odd_frame == if last { !m.odd_frame } else { m.odd_frame }
        }),
{
    reveal(PpuModel::line_events);
    reveal(PpuModel::scroll_events);
    reveal(PpuModel::dot_advanced);
    lemma_fields(m.mask);
}

/// Vertical blank begins at dot 1 of line 241 and ends at dot 1 of line 261, where the other two
/// flags end as well; a frame is complete when it begins. With permission in PPUCTRL its beginning
/// asks for an NMI.
#[verifier::rlimit(40)]
pub proof fn law_vertical_blank_comes_and_goes(m: PpuModel, cart: CartModel)
    requires
        m.wf(),
    ensures
        ({
            let d = m.ticked(cart);
            let begins = m.scanline == 241 && m.cycle == 1;
            let ends = m.scanline == 261 && m.cycle == 1;
            &&& bit(d.status, 7) == (begins || (!ends && bit(m.status, 7)))
            &&& ends ==> d.status == m.status % 32
            &&& d.frame_done == (m.frame_done || begins)
            &&& d.frame == if begins { m.frame.wrapping_add(1) } else { m.frame }
            &&& begins ==> d.nmi_line == bit(m.ctrl, 7)
            &&& begins && bit(m.ctrl, 7) && !m.nmi_line ==> d.nmi_pending && !d.nmi_delay
            &&& ends ==> !d.nmi_line
            &&& !begins ==> d.nmi_pending == m.nmi_pending
        }),
{
    reveal(PpuModel::line_events);
    reveal(PpuModel::scroll_events);
    reveal(PpuModel::dot_advanced);
    lemma_fields(m.status);
    lemma_shifts(m.status);
    lemma_shifts(m.status | 0x80);
    lemma_shifts(m.status & !0xE0);
    lemma_shifts(m.ctrl);
    lemma_fields(m.status);
    let p = if m.cycle == 0 { m.rendered(m.scanline, cart) } else { m };
    lemma_flags(p.status);
}

proof fn lemma_flags(s: u8)
    by (bit_vector)
    ensures
        ((s | 0x40) >> 7) & 1 == (s >> 7) & 1,
        ((s | 0x20) >> 7) & 1 == (s >> 7) & 1,
        (((s | 0x40) | 0x20) >> 7) & 1 == (s >> 7) & 1,
        ((s | 0x40) >> 6) & 1 == 1,
        (((s | 0x40) | 0x20) >> 6) & 1 == 1,
        ((s | 0x20) >> 6) & 1 == (s >> 6) & 1,
        ((s | 0x20) >> 5) & 1 == 1,
        (((s | 0x40) | 0x20) >> 5) & 1 == 1,
        ((s | 0x40) >> 5) & 1 == (s >> 5) & 1,
{
}

/// On a visible line the hit flag is raised at the dot that painting the line found, and the
/// overflow flag at dot 256 if the line has too many sprites; both stay until the end of vertical
/// blank.
pub proof fn law_sprite_flags_are_raised(m: PpuModel, cart: CartModel)
    requires
        m.wf(),
        m.scanline < 240,
    ensures
        ({
            let d = m.ticked(cart);
            let p = if m.cycle == 0 { m.rendered(m.scanline, cart) } else { m };
            &&& bit(d.status, 6) == (bit(m.status, 6) || (m.cycle > 0 && m.cycle
                == m.sprite0_hit_dot))
            &&& bit(d.status, 5) == (bit(m.status, 5) || (m.cycle == 256 && m.overflow_pending))
            &&& m.cycle == 0 ==> d.screen == p.screen && d.overflow_pending == p.overflow_pending
            &&& m.cycle == 0 ==> d.sprite0_hit_dot == p.sprite0_hit_dot
            &&& m.cycle > 0 ==> d.screen == m.screen
        }),
{
    reveal(PpuModel::line_events);
    reveal(PpuModel::scroll_events);
    reveal(PpuModel::dot_advanced);
    let p = if m.cycle == 0 { m.rendered(m.scanline, cart) } else { m };
    lemma_flags(p.status);
}

/// While rendering is on, the position moves one tile right every eight dots of a line that is
/// fetched, and at dots 328 and 336 for the next; one line down at dot 256; back to the column to
/// come at dot 257, and before the first line to the row to come. At all other times it stays, and
/// always while rendering is off.
#[verifier::rlimit(40)]
pub proof fn law_the_position_follows_the_beam(m: PpuModel, cart: CartModel)
    requires
        m.wf(),
    ensures
        ({
            let d = m.ticked(cart);
            let on = (bit(m.mask, 3) || bit(m.mask, 4)) && (m.scanline < 240 || m.scanline == 261);
            let dot = m.cycle as int;
            let ahead = dot == 328 || dot == 336;
            let right = (1 <= dot < 256 && dot % 8 == 0) || ahead;
            let top = m.scanline == 261 && 280 <= dot <= 304;
            &&& d.t == m.t
            &&& on && right ==> d.v == tile_right(m.v)
            &&& on && dot == 256 ==> d.v == line_down(tile_right(m.v))
            &&& on && dot == 257 ==> across(d.v) == across(m.t) && d.v / 32 % 32 == m.v / 32 % 32
                && d.v / 2048 == m.v / 2048
            &&& on && top ==> across(d.v) == across(m.v) && d.v / 32 % 32 == m.t / 32 % 32 && d.v
                / 2048 == m.t / 2048
            &&& !(on && (right || dot == 256 || dot == 257 || top)) ==> d.v == m.v
            &&& on && ahead ==> d.prefetch_incs == m.prefetch_incs + 1
            &&& (m.scanline < 240 || m.scanline == 261) && dot == 321 ==> d.prefetch_incs == 0
            &&& !(on && ahead) && dot != 321 ==> d.prefetch_incs == m.prefetch_incs
        }),
{
    reveal(PpuModel::line_events);
    reveal(PpuModel::scroll_events);
    reveal(PpuModel::dot_advanced);
    lemma_fields(m.mask);
    lemma_word_fields(m.cycle);
    lemma_position_bits(m.t, m.v, 0);
}

/// The CPU takes an NMI that was asked for once; one that a register write asked for, only the next
/// time it looks.
pub proof fn law_nmis_are_taken_once(m: PpuModel)
    ensures
        m.nmi_ready() ==> !m.nmi_taken().nmi_ready() && !m.nmi_taken().nmi_pending,
        m.nmi_pending && m.nmi_delay ==> !m.nmi_ready() && m.nmi_taken().nmi_ready(),
        !m.nmi_pending ==> !m.nmi_ready() && m.nmi_taken() == m,
{
}

} // verus!

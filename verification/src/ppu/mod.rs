//! The picture processing unit.
//!
//! # Timing
//!
//! The unit advances dot by dot, three dots to a CPU cycle. A visible scanline is painted as a
//! whole at its dot 0, but the scroll register `v` moves at the dots at which the hardware moves
//! it, so a scroll change between two lines shows on the right line. Where sprite 0 meets the
//! background is worked out with the line, and reported at the dot where it happens.
//!
//! A frame is done at scanline 241, dot 1, when vertical blank begins: all visible lines are
//! painted by then.

use vstd::prelude::*;

use crate::bits::{lemma_mask_u16, lemma_mask_u8};
use crate::cartridge::{CartModel, Cartridge, Mirroring};
use crate::fingerprint::{put_bool, put_bytes, put_u16, put_u64, put_u8, Fp};
use crate::frame::{blank_picture, picture_len, FrameBuffer};

pub mod palette;
pub mod render;
pub mod views;

pub use palette::{to_rgba, SYSTEM_PALETTE};

verus! {

/// PPUCTRL bit 7: vertical blank raises an NMI.
pub const CTRL_NMI_ENABLE: u8 = 0x80;

/// PPUSTATUS bit 7: vertical blank.
pub const STATUS_VBLANK: u8 = 0x80;

/// PPUSTATUS bit 6: sprite 0 met the background.
pub const STATUS_SPRITE0_HIT: u8 = 0x40;

/// PPUSTATUS bit 5: more than eight sprites on a line.
pub const STATUS_SPRITE_OVERFLOW: u8 = 0x20;

/// The dots of a scanline.
pub const DOTS_PER_SCANLINE: u16 = 341;

/// The scanline before the first visible one.
pub const PRE_RENDER_LINE: u16 = 261;

/// The scanline in which vertical blank begins.
pub const VBLANK_LINE: u16 = 241;

#[derive(Debug, Clone)]
pub struct Ppu {
    pub ctrl: u8,
    pub mask: u8,
    pub status: u8,
    pub oam_addr: u8,
    /// The current address, 15 bits, which is also the scroll position.
    pub v: u16,
    /// The address being written, 15 bits.
    pub t: u16,
    /// The horizontal scroll within a tile.
    pub fine_x: u8,
    /// Set between the two writes of `$2005` and `$2006`.
    pub w: bool,
    /// The byte that the next read of `$2007` gives.
    pub data_buffer: u8,
    /// The last value on the register bus; registers that cannot be read give it back.
    pub io_latch: u8,
    /// 64 sprites of four bytes.
    pub oam: Vec<u8>,
    /// The two physical nametables.
    pub vram: Vec<u8>,
    /// Palette memory. Entries `$10`, `$14`, `$18` and `$1C` are those of `$00` to `$0C`.
    pub palette: [u8; 32],
    /// 0 to 239 visible, 241 to 260 vertical blank, 261 before the first line.
    pub scanline: u16,
    /// The dot within the scanline.
    pub cycle: u16,
    /// How often vertical blank began.
    pub frame: u64,
    /// An odd frame is one dot shorter while rendering is on.
    pub odd_frame: bool,
    /// The NMI line: vertical blank while PPUCTRL allows it.
    pub nmi_line: bool,
    /// A rise of that line that the CPU has not served.
    pub nmi_pending: bool,
    /// The rise came from a write to PPUCTRL, too late for the end of that instruction.
    pub nmi_delay: bool,
    /// A frame was completed.
    pub frame_done: bool,
    /// The dot of this line at which sprite 0 meets the background; 0 where it does not.
    pub sprite0_hit_dot: u16,
    /// The line has more than eight sprites.
    pub overflow_pending: bool,
    /// How many tiles `v` has moved ahead for the next line, 0 to 2.
    pub prefetch_incs: u8,
    /// The picture. It is output, not state: the next frame paints all of it.
    pub frame_buffer: FrameBuffer,
    /// Whether the picture is painted.
    pub output_enabled: bool,
}

/// The unit as a value.
pub struct PpuModel {
    pub ctrl: u8,
    pub mask: u8,
    pub status: u8,
    pub oam_addr: u8,
    pub v: u16,
    pub t: u16,
    pub fine_x: u8,
    pub w: bool,
    pub data_buffer: u8,
    pub io_latch: u8,
    pub oam: Seq<u8>,
    pub vram: Seq<u8>,
    pub palette: Seq<u8>,
    pub scanline: u16,
    pub cycle: u16,
    pub frame: u64,
    pub odd_frame: bool,
    pub nmi_line: bool,
    pub nmi_pending: bool,
    pub nmi_delay: bool,
    pub frame_done: bool,
    pub sprite0_hit_dot: u16,
    pub overflow_pending: bool,
    pub prefetch_incs: u8,
    pub screen: Seq<u8>,
    pub output_enabled: bool,
}

impl View for Ppu {
    type V = PpuModel;

    open spec fn view(&self) -> PpuModel {
        PpuModel {
            ctrl: self.ctrl,
            mask: self.mask,
            status: self.status,
            oam_addr: self.oam_addr,
            v: self.v,
            t: self.t,
            fine_x: self.fine_x,
            w: self.w,
            data_buffer: self.data_buffer,
            io_latch: self.io_latch,
            oam: self.oam@,
            vram: self.vram@,
            palette: self.palette@,
            scanline: self.scanline,
            cycle: self.cycle,
            frame: self.frame,
            odd_frame: self.odd_frame,
            nmi_line: self.nmi_line,
            nmi_pending: self.nmi_pending,
            nmi_delay: self.nmi_delay,
            frame_done: self.frame_done,
            sprite0_hit_dot: self.sprite0_hit_dot,
            overflow_pending: self.overflow_pending,
            prefetch_incs: self.prefetch_incs,
            screen: self.frame_buffer@,
            output_enabled: self.output_enabled,
        }
    }
}

/// Where a nametable address falls in the 2 KB of nametable memory.
pub open spec fn nametable_position(addr: u16, mirroring: Mirroring) -> int {
    let index = (addr.wrapping_sub(0x2000) & 0xFFF) as int;
    let table = index / 0x400;
    let physical = match mirroring {
        Mirroring::Horizontal => table / 2,
        Mirroring::Vertical => table % 2,
        Mirroring::FourScreen => table % 2,
        Mirroring::SingleScreenLower => 0,
        Mirroring::SingleScreenUpper => 1,
    };
    physical * 0x400 + index % 0x400
}

/// The palette entry of an address: the backdrop entries of the sprite palettes are those of the
/// background palettes.
pub open spec fn palette_position(addr: u16) -> int {
    let index = (addr & 0x1F) as int;
    if index % 4 == 0 { index % 16 } else { index }
}

/// `v` one tile to the right: from column 31 to column 0 of the neighbouring nametable.
pub open spec fn tile_right(v: u16) -> u16 {
    if v & 0x1F == 31 { (v & !0x1F) ^ 0x0400 } else { v.wrapping_add(1) & 0x7FFF }
}

/// `v` one line down: the fine position first, then the tile row. Row 29 wraps into the other
/// nametable; row 31, which lies in the attributes, wraps without changing it.
pub open spec fn line_down(v: u16) -> u16 {
    if v & 0x7000 != 0x7000 {
        v.wrapping_add(0x1000) & 0x7FFF
    } else {
        let top = v & !0x7000;
        let row = (top & 0x03E0) >> 5;
        let table = if row == 29 { top ^ 0x0800 } else { top };
        let next: u16 = if row == 29 || row == 31 { 0 } else { (row + 1) as u16 };
        (table & !0x03E0) | (next << 5)
    }
}

proof fn lemma_scroll_bits(v: u16, t: u16, x: u8, row: u16)
    by (bit_vector)
    requires
        v <= 0x7FFF,
        t <= 0x7FFF,
        row <= 31,
    ensures
        (v & !0x1F) ^ 0x0400 <= 0x7FFF,
        ((v & !0x7000) & 0x03E0) >> 5 <= 31,
        ((v & !0x7000) & !0x03E0) | (row << 5) <= 0x7FFF,
        (((v & !0x7000) ^ 0x0800) & !0x03E0) | (row << 5) <= 0x7FFF,
        (v & !0x041F) | (t & 0x041F) <= 0x7FFF,
        (v & !0x7BE0) | (t & 0x7BE0) <= 0x7FFF,
        (t & !0x0C00) | (((x as u16) & 3) << 10) <= 0x7FFF,
        (t & !0x001F) | ((x as u16) >> 3) <= 0x7FFF,
        (t & !0x73E0) | (((x as u16) & 7) << 12) | (((x as u16) >> 3) << 5) <= 0x7FFF,
        (t & 0x00FF) | (((x as u16) & 0x3F) << 8) <= 0x7FFF,
        (t & 0x7F00) | (x as u16) <= 0x7FFF,
{
}

/// A line on which the unit fetches and scrolls.
pub open spec fn fetches(line: u16) -> bool {
    line < 240 || line == 261
}

impl PpuModel {
    pub open spec fn powered_on() -> PpuModel {
        PpuModel {
            ctrl: 0,
            mask: 0,
            status: 0,
            oam_addr: 0,
            v: 0,
            t: 0,
            fine_x: 0,
            w: false,
            data_buffer: 0,
            io_latch: 0,
            oam: Seq::new(256, |i: int| 0u8),
            vram: Seq::new(2048, |i: int| 0u8),
            palette: Seq::new(32, |i: int| 0u8),
            scanline: 0,
            cycle: 0,
            frame: 0,
            odd_frame: false,
            nmi_line: false,
            nmi_pending: false,
            nmi_delay: false,
            frame_done: false,
            sprite0_hit_dot: 0,
            overflow_pending: false,
            prefetch_incs: 0,
            screen: blank_picture(),
            output_enabled: true,
        }
    }

    /// The fields are in the range of the hardware. What a save state has to satisfy.
    pub open spec fn valid(self) -> bool {
        &&& self.oam.len() == 256
        &&& self.vram.len() == 2048
        &&& self.scanline <= 261
        &&& self.cycle < 341
        &&& self.v <= 0x7FFF
        &&& self.t <= 0x7FFF
        &&& self.fine_x <= 7
        &&& self.prefetch_incs <= 2
        &&& self.sprite0_hit_dot < 341
    }

    /// What every operation needs and keeps. A valid unit satisfies it; the prefetch count of a
    /// restored one may run ahead of what the dot allows until the end of the line.
    pub open spec fn wf(self) -> bool {
        &&& self.oam.len() == 256
        &&& self.vram.len() == 2048
        &&& self.palette.len() == 32
        &&& self.screen.len() == picture_len()
        &&& self.scanline <= 261
        &&& self.cycle < 341
        &&& self.v <= 0x7FFF
        &&& self.t <= 0x7FFF
        &&& self.fine_x <= 7
        &&& self.sprite0_hit_dot < 341
        &&& self.prefetch_incs <= 4
        &&& fetches(self.scanline) && 322 <= self.cycle <= 328 ==> self.prefetch_incs <= 2
        &&& fetches(self.scanline) && 329 <= self.cycle <= 336 ==> self.prefetch_incs <= 3
    }

    /// What holds of a unit that ran from power-on: the prefetch count is what the dot allows.
    pub open spec fn sound(self) -> bool {
        &&& self.wf()
        &&& self.prefetch_incs <= 2
        &&& fetches(self.scanline) && 322 <= self.cycle <= 328 ==> self.prefetch_incs == 0
        &&& fetches(self.scanline) && 329 <= self.cycle <= 336 ==> self.prefetch_incs <= 1
    }

    /// How many dots from here to the one at which vertical blank begins, that one included.
    pub open spec fn dots_to_vblank(self) -> int {
        let here = self.scanline * 341 + self.cycle;
        if here <= 82182 { 82183 - here } else { 89342 - here + 82183 }
    }

    /// How many dots ago vertical blank began.
    pub open spec fn dots_since_vblank(self) -> int {
        let here = self.scanline * 341 + self.cycle;
        if here > 82182 { here - 82182 } else { here + 7160 }
    }

    /// Vertical blank has begun, and no line of the next frame was reached.
    pub open spec fn after_vblank(self) -> bool {
        self.scanline * 341 + self.cycle > 82182
    }

    /// How far the unit went on after it completed a frame that was not taken yet.
    pub open spec fn overrun(self) -> int {
        if self.frame_done { self.dots_since_vblank() } else { 0 }
    }

    /// `later` can follow `self`: a completed frame stays reported, and until one is completed
    /// the unit only comes closer to vertical blank.
    pub open spec fn precedes(self, later: PpuModel) -> bool {
        &&& self.frame_done ==> later.frame_done
        &&& later.frame_done || later.dots_to_vblank() <= self.dots_to_vblank()
    }

    pub open spec fn was_reset(self) -> PpuModel {
        PpuModel {
            ctrl: 0,
            mask: 0,
            w: false,
            data_buffer: 0,
            nmi_line: false,
            nmi_pending: false,
            nmi_delay: false,
            ..self
        }
    }

    /// The NMI line follows the flag and the permission; only its rise asks for an NMI.
    pub open spec fn nmi_updated(self, from_cpu_write: bool) -> PpuModel {
        let line = self.status & 0x80 != 0 && self.ctrl & 0x80 != 0;
        let rise = line && !self.nmi_line;
        PpuModel {
            nmi_pending: rise || self.nmi_pending,
            nmi_delay: if rise { from_cpu_write } else { self.nmi_delay },
            nmi_line: line,
            ..self
        }
    }

    /// Whether the CPU serves an NMI now.
    pub open spec fn nmi_ready(self) -> bool {
        self.nmi_pending && !self.nmi_delay
    }

    /// The unit after the CPU looked for an NMI: a delayed one is ready the next time.
    pub open spec fn nmi_taken(self) -> PpuModel {
        if !self.nmi_pending {
            self
        } else if self.nmi_delay {
            PpuModel { nmi_delay: false, ..self }
        } else {
            PpuModel { nmi_pending: false, ..self }
        }
    }

    pub open spec fn oam_byte(self) -> u8 {
        let value = self.oam[self.oam_addr as int];
        if self.oam_addr & 3 == 2 { value & 0xE3 } else { value }
    }

    pub open spec fn palette_byte(self, addr: u16) -> u8 {
        let value = self.palette[palette_position(addr)] & 63;
        if self.mask & 1 != 0 { value & 0x30 } else { value }
    }

    /// A byte of the unit's address space: patterns, nametables, palette.
    pub open spec fn memory_byte(self, addr: u16, cart: CartModel) -> u8 {
        let a = addr & 0x3FFF;
        if a < 0x2000 {
            cart.chr_byte(a)
        } else if a < 0x3F00 {
            self.vram[nametable_position(a, cart.mirrors())]
        } else {
            self.palette_byte(a)
        }
    }

    pub open spec fn memory_written(self, addr: u16, value: u8, cart: CartModel) -> PpuModel {
        let a = addr & 0x3FFF;
        if a < 0x2000 {
            self
        } else if a < 0x3F00 {
            PpuModel {
                vram: self.vram.update(nametable_position(a, cart.mirrors()), value),
                ..self
            }
        } else {
            PpuModel { palette: self.palette.update(palette_position(a), value & 63), ..self }
        }
    }

    /// After an access to `$2007` the address moves by 1, or by 32.
    pub open spec fn v_moved(self) -> PpuModel {
        PpuModel {
            v: self.v.wrapping_add(if self.ctrl & 4 != 0 { 32 } else { 1 }) & 0x7FFF,
            ..self
        }
    }

    /// What a read of a register gives, without doing it.
    pub open spec fn register_peek(self, reg: u16) -> u8 {
        if reg & 7 == 2 {
            (self.status & 0xE0) | (self.io_latch & 31)
        } else if reg & 7 == 4 {
            self.oam_byte()
        } else if reg & 7 == 7 {
            self.data_value()
        } else {
            self.io_latch
        }
    }

    /// What a read of `$2007` gives: the buffer, or the palette directly.
    pub open spec fn data_value(self) -> u8 {
        if self.v & 0x3FFF >= 0x3F00 {
            self.palette_byte(self.v & 0x3FFF) | (self.io_latch & 0xC0)
        } else {
            self.data_buffer
        }
    }

    /// A read of `$2007` fills the buffer: from the address, or from the nametable under it where
    /// the address is in the palette.
    pub open spec fn data_read(self, cart: CartModel) -> PpuModel {
        let addr = self.v & 0x3FFF;
        PpuModel {
            data_buffer: self.memory_byte(if addr >= 0x3F00 { addr & 0x2FFF } else { addr }, cart),
            ..self
        }.v_moved()
    }

    /// The unit after a read of a register.
    #[verifier::opaque]
    pub open spec fn register_read(self, reg: u16, cart: CartModel) -> PpuModel {
        let value = self.register_peek(reg);
        if reg & 7 == 2 {
            let cleared = PpuModel { status: self.status & !0x80, w: false, ..self };
            PpuModel {
                io_latch: (self.io_latch & 31) | (value & 0xE0),
                ..cleared.nmi_updated(false)
            }
        } else if reg & 7 == 4 {
            PpuModel { io_latch: value, ..self }
        } else if reg & 7 == 7 {
            PpuModel { io_latch: value, ..self.data_read(cart) }
        } else {
            self
        }
    }

    /// One of the two writes of `$2005`: first the horizontal position, then the vertical.
    pub open spec fn scroll_written(self, value: u8) -> PpuModel {
        let wide = value as u16;
        if !self.w {
            PpuModel { t: (self.t & !0x001F) | (wide >> 3), fine_x: value & 7, w: true, ..self }
        } else {
            PpuModel {
                t: (self.t & !0x73E0) | ((wide & 7) << 12) | ((wide >> 3) << 5),
                w: false,
                ..self
            }
        }
    }

    /// One of the two writes of `$2006`: the high byte, then the low byte, which completes the
    /// address.
    pub open spec fn address_written(self, value: u8) -> PpuModel {
        let wide = value as u16;
        if !self.w {
            PpuModel { t: (self.t & 0x00FF) | ((wide & 0x3F) << 8), w: true, ..self }
        } else {
            let t = (self.t & 0x7F00) | wide;
            PpuModel { t, v: t, w: false, ..self }
        }
    }

    /// The unit after a write to a register. A write to `$2007` can also reach the cartridge.
    #[verifier::opaque]
    pub open spec fn register_written(self, reg: u16, value: u8, cart: CartModel) -> PpuModel {
        let m = PpuModel { io_latch: value, ..self };
        let wide = value as u16;
        if reg & 7 == 0 {
            PpuModel {
                ctrl: value,
                t: (self.t & !0x0C00) | ((wide & 3) << 10),
                ..m
            }.nmi_updated(true)
        } else if reg & 7 == 1 {
            PpuModel { mask: value, ..m }
        } else if reg & 7 == 3 {
            PpuModel { oam_addr: value, ..m }
        } else if reg & 7 == 4 {
            PpuModel {
                oam: self.oam.update(self.oam_addr as int, value),
                oam_addr: self.oam_addr.wrapping_add(1),
                ..m
            }
        } else if reg & 7 == 5 {
            m.scroll_written(value)
        } else if reg & 7 == 6 {
            m.address_written(value)
        } else if reg & 7 == 7 {
            m.memory_written(self.v & 0x3FFF, value, cart).v_moved()
        } else {
            m
        }
    }

    /// The cartridge after a write to a register: `$2007` writes pattern memory.
    pub open spec fn cart_written(self, reg: u16, value: u8, cart: CartModel) -> CartModel {
        if reg & 7 == 7 && self.v & 0x3FFF < 0x2000 {
            cart.chr_written(self.v & 0x3FFF, value)
        } else {
            cart
        }
    }

    pub open spec fn rendering(self) -> bool {
        self.mask & 0x18 != 0
    }

    /// What happens at this dot: a visible line is painted and its events are reported, vertical
    /// blank begins, or its flags are cleared.
    #[verifier::opaque]
    pub open spec fn line_events(self, cart: CartModel) -> PpuModel {
        if self.scanline < 240 {
            let painted = if self.cycle == 0 { self.rendered(self.scanline, cart) } else { self };
            let hit = painted.sprite0_hit_dot != 0 && self.cycle == painted.sprite0_hit_dot;
            let overflow = self.cycle == 256 && painted.overflow_pending;
            let status = if hit { painted.status | 0x40 } else { painted.status };
            PpuModel {
                status: if overflow { status | 0x20 } else { status },
                sprite0_hit_dot: if hit { 0 } else { painted.sprite0_hit_dot },
                overflow_pending: if overflow { false } else { painted.overflow_pending },
                ..painted
            }
        } else if self.scanline == 241 && self.cycle == 1 {
            PpuModel {
                status: self.status | 0x80,
                frame: self.frame.wrapping_add(1),
                frame_done: true,
                ..self
            }.nmi_updated(false)
        } else if self.scanline == 261 && self.cycle == 1 {
            PpuModel {
                status: self.status & !0xE0,
                sprite0_hit_dot: 0,
                overflow_pending: false,
                ..self
            }.nmi_updated(false)
        } else {
            self
        }
    }

    /// How the scroll position moves at this dot while rendering is on: a tile every eight dots,
    /// a line at dot 256, back to the left edge at dot 257, back to the top before the first
    /// line, and two tiles ahead at the end of a line.
    #[verifier::opaque]
    pub open spec fn scroll_events(self, rendering: bool) -> PpuModel {
        let dot = self.cycle;
        let m = if dot == 321 { PpuModel { prefetch_incs: 0, ..self } } else { self };
        if !fetches(self.scanline) {
            self
        } else if !rendering {
            m
        } else if 1 <= dot <= 256 && dot & 7 == 0 {
            let right = tile_right(self.v);
            PpuModel { v: if dot == 256 { line_down(right) } else { right }, ..m }
        } else if dot == 257 {
            PpuModel { v: (self.v & !0x041F) | (self.t & 0x041F), ..m }
        } else if 280 <= dot <= 304 && self.scanline == 261 {
            PpuModel { v: (self.v & !0x7BE0) | (self.t & 0x7BE0), ..m }
        } else if dot == 328 || dot == 336 {
            PpuModel {
                v: tile_right(self.v),
                prefetch_incs: (self.prefetch_incs + 1) as u8,
                ..m
            }
        } else {
            m
        }
    }

    /// The next dot. An odd frame skips the last dot before its first line while rendering is on.
    #[verifier::opaque]
    pub open spec fn dot_advanced(self, rendering: bool) -> PpuModel {
        let skip = self.scanline == 261 && self.cycle == 339 && self.odd_frame && rendering;
        if self.cycle + 1 < 341 && !skip {
            PpuModel { cycle: (self.cycle + 1) as u16, ..self }
        } else if self.scanline + 1 <= 261 {
            PpuModel { cycle: 0, scanline: (self.scanline + 1) as u16, ..self }
        } else {
            PpuModel { cycle: 0, scanline: 0, odd_frame: !self.odd_frame, ..self }
        }
    }

    /// One dot.
    pub open spec fn ticked(self, cart: CartModel) -> PpuModel {
        let rendering = self.rendering();
        self.line_events(cart).scroll_events(rendering).dot_advanced(rendering)
    }

    /// `n` dots.
    pub open spec fn stepped(self, n: nat, cart: CartModel) -> PpuModel
        decreases n,
    {
        if n == 0 { self } else { self.stepped((n - 1) as nat, cart).ticked(cart) }
    }

    /// What the unit adds to a fingerprint.
    #[verifier::opaque]
    pub open spec fn stamp(self, rest: Seq<u8>) -> Seq<u8> {
        put_u8(
            self.ctrl,
            put_u8(
                self.mask,
                put_u8(
                    self.status,
                    put_u8(
                        self.oam_addr,
                        put_u16(
                            self.v,
                            put_u16(
                                self.t,
                                put_u8(
                                    self.fine_x,
                                    put_bool(
                                        self.w,
                                        put_u8(
                                            self.data_buffer,
                                            put_u8(self.io_latch, self.memory_stamp(rest)),
                                        ),
                                    ),
                                ),
                            ),
                        ),
                    ),
                ),
            ),
        )
    }

    #[verifier::opaque]
    pub open spec fn memory_stamp(self, rest: Seq<u8>) -> Seq<u8> {
        put_bytes(
            self.oam,
            put_bytes(self.vram, put_bytes(self.palette, self.timing_stamp(rest))),
        )
    }

    #[verifier::opaque]
    pub open spec fn timing_stamp(self, rest: Seq<u8>) -> Seq<u8> {
        put_u16(
            self.scanline,
            put_u16(
                self.cycle,
                put_u64(
                    self.frame,
                    put_bool(
                        self.odd_frame,
                        put_bool(
                            self.nmi_line,
                            put_bool(
                                self.nmi_pending,
                                put_bool(
                                    self.nmi_delay,
                                    put_bool(
                                        self.frame_done,
                                        put_u16(
                                            self.sprite0_hit_dot,
                                            put_bool(
                                                self.overflow_pending,
                                                put_u8(self.prefetch_incs, rest),
                                            ),
                                        ),
                                    ),
                                ),
                            ),
                        ),
                    ),
                ),
            ),
        )
    }
}

proof fn lemma_masked_twice(x: u16)
    by (bit_vector)
    ensures
        (x & 0x3FFF) & 0x3FFF == x & 0x3FFF,
{
}

pub proof fn lemma_register_read(m: PpuModel, reg: u16, cart: CartModel)
    requires
        m.wf(),
    ensures
        m.register_read(reg, cart).wf(),
        m.sound() ==> m.register_read(reg, cart).sound(),
        m.precedes(m.register_read(reg, cart)),
{
    broadcast use lemma_mask_u16;

    reveal(PpuModel::register_read);
}

proof fn lemma_data_written(m: PpuModel, value: u8, cart: CartModel)
    requires
        m.wf(),
    ensures
        ({
            let n = m.memory_written(m.v & 0x3FFF, value, cart).v_moved();
            &&& n.wf()
            &&& m.sound() ==> n.sound()
            &&& m.precedes(n)
        }),
{
    broadcast use lemma_mask_u16;

}

proof fn lemma_position_written(m: PpuModel, value: u8)
    requires
        m.wf(),
    ensures
        m.scroll_written(value).wf(),
        m.sound() ==> m.scroll_written(value).sound(),
        m.precedes(m.scroll_written(value)),
        m.address_written(value).wf(),
        m.sound() ==> m.address_written(value).sound(),
        m.precedes(m.address_written(value)),
{
    broadcast use lemma_mask_u8;

    lemma_scroll_bits(m.v, m.t, value, 0);
}

pub proof fn lemma_register_written(m: PpuModel, reg: u16, value: u8, cart: CartModel)
    requires
        m.wf(),
    ensures
        m.register_written(reg, value, cart).wf(),
        m.sound() ==> m.register_written(reg, value, cart).sound(),
        m.precedes(m.register_written(reg, value, cart)),
{
    reveal(PpuModel::register_written);
    lemma_scroll_bits(m.v, m.t, value, 0);
    let latched = PpuModel { io_latch: value, ..m };
    if reg & 7 == 5 || reg & 7 == 6 {
        lemma_position_written(latched, value);
    } else if reg & 7 == 7 {
        lemma_data_written(latched, value, cart);
    }
}

proof fn lemma_line_events(m: PpuModel, cart: CartModel)
    requires
        m.wf(),
    ensures
        m.line_events(cart).wf(),
        m.sound() ==> m.line_events(cart).sound(),
        m.line_events(cart).scanline == m.scanline,
        m.line_events(cart).cycle == m.cycle,
        m.frame_done ==> m.line_events(cart).frame_done,
        m.scanline == 241 && m.cycle == 1 ==> m.line_events(cart).frame_done,
{
    reveal(PpuModel::line_events);
    if m.scanline < 240 {
        render::lemma_rendered(m, m.scanline, cart);
    }
}

proof fn lemma_scroll_events(m: PpuModel, rendering: bool)
    requires
        m.wf(),
    ensures
        ({
            let n = m.scroll_events(rendering);
            &&& n == PpuModel { v: n.v, prefetch_incs: n.prefetch_incs, ..m }
            &&& n.v <= 0x7FFF
            &&& n.prefetch_incs == if fetches(m.scanline) && m.cycle == 321 {
                0
            } else if fetches(m.scanline) && rendering && (m.cycle == 328 || m.cycle == 336) {
                (m.prefetch_incs + 1) as u8
            } else {
                m.prefetch_incs
            }
        }),
{
    broadcast use lemma_mask_u16;

    reveal(PpuModel::scroll_events);
    lemma_tile_right(m.v);
    lemma_line_down(tile_right(m.v));
    lemma_scroll_bits(m.v, m.t, 0, 0);
}

proof fn lemma_tile_right(v: u16)
    requires
        v <= 0x7FFF,
    ensures
        tile_right(v) <= 0x7FFF,
{
    broadcast use lemma_mask_u16;

    lemma_scroll_bits(v, 0, 0, 0);
}

proof fn lemma_line_down(v: u16)
    requires
        v <= 0x7FFF,
    ensures
        line_down(v) <= 0x7FFF,
{
    broadcast use lemma_mask_u16;

    lemma_scroll_bits(v, 0, 0, 0);
    let row = ((v & !0x7000) & 0x03E0) >> 5;
    lemma_scroll_bits(v, 0, 0, if row == 29 || row == 31 { 0 } else { (row + 1) as u16 });
}

/// One dot on: closer to vertical blank, unless it has begun.
proof fn lemma_dot_advanced(m: PpuModel, rendering: bool)
    requires
        m.scanline <= 261,
        m.cycle < 341,
    ensures
        ({
            let n = m.dot_advanced(rendering);
            &&& n.scanline <= 261
            &&& n.cycle < 341
            &&& m.scanline == 241 && m.cycle == 1 || n.dots_to_vblank() < m.dots_to_vblank()
            &&& n.cycle == m.cycle + 1 && n.scanline == m.scanline || n.cycle == 0
            &&& n == PpuModel {
                cycle: n.cycle,
                scanline: n.scanline,
                odd_frame: n.odd_frame,
                ..m
            }
        }),
{
    reveal(PpuModel::dot_advanced);
}

proof fn lemma_ticked(m: PpuModel, cart: CartModel)
    requires
        m.wf(),
    ensures
        ({
            let n = m.ticked(cart);
            &&& n.wf()
            &&& m.sound() ==> n.sound()
            &&& m.precedes(n)
            &&& n.frame_done || n.dots_to_vblank() < m.dots_to_vblank()
        }),
{
    let rendering = m.rendering();
    lemma_line_events(m, cart);
    lemma_scroll_events(m.line_events(cart), rendering);
    lemma_dot_advanced(m.line_events(cart).scroll_events(rendering), rendering);
}

/// The unit stays in the range of the hardware, and every dot brings it closer to vertical blank,
/// until a frame is completed.
pub proof fn law_dots_lead_to_vblank(m: PpuModel, n: nat, cart: CartModel)
    requires
        m.wf(),
    ensures
        ({
            let later = m.stepped(n, cart);
            &&& later.wf()
            &&& m.sound() ==> later.sound()
            &&& m.precedes(later)
            &&& later.frame_done || later.dots_to_vblank() <= m.dots_to_vblank() - n
        }),
    decreases n,
{
    if n > 0 {
        law_dots_lead_to_vblank(m, (n - 1) as nat, cart);
        lemma_ticked(m.stepped((n - 1) as nat, cart), cart);
    }
}

/// The unit goes on by two dots at most where it goes on by one.
pub proof fn lemma_overrun(m: PpuModel, n: nat, cart: CartModel)
    requires
        m.wf(),
    ensures
        m.stepped(n, cart).overrun() <= m.overrun() + 2 * n,
    decreases n,
{
    if n > 0 {
        lemma_overrun(m, (n - 1) as nat, cart);
        let before = m.stepped((n - 1) as nat, cart);
        law_dots_lead_to_vblank(m, (n - 1) as nat, cart);
        let rendering = before.rendering();
        lemma_line_events(before, cart);
        lemma_scroll_events(before.line_events(cart), rendering);
        lemma_dot_advanced(before.line_events(cart).scroll_events(rendering), rendering);
        reveal(PpuModel::line_events);
        reveal(PpuModel::dot_advanced);
    }
}

impl Default for Ppu {
    fn default() -> (ppu: Self)
        ensures
            ppu@ == PpuModel::powered_on(),
            ppu@.sound(),
    {
        let ppu: Ppu = Ppu {
            ctrl: 0,
            mask: 0,
            status: 0,
            oam_addr: 0,
            v: 0,
            t: 0,
            fine_x: 0,
            w: false,
            data_buffer: 0,
            io_latch: 0,
            oam: vec![0u8; 256],
            vram: vec![0u8; 2048],
            palette: [0u8; 32],
            scanline: 0,
            cycle: 0,
            frame: 0,
            odd_frame: false,
            nmi_line: false,
            nmi_pending: false,
            nmi_delay: false,
            frame_done: false,
            sprite0_hit_dot: 0,
            overflow_pending: false,
            prefetch_incs: 0,
            frame_buffer: FrameBuffer::blank(),
            output_enabled: true,
        };
        assert(ppu@.oam =~= PpuModel::powered_on().oam);
        assert(ppu@.vram =~= PpuModel::powered_on().vram);
        assert(ppu@.palette =~= PpuModel::powered_on().palette);
        ppu
    }
}

impl Ppu {
    pub fn is_structurally_valid(&self) -> (yes: bool)
        ensures
            yes == self@.valid(),
    {
        self.oam.len() == 256 && self.vram.len() == 2048 && self.scanline <= PRE_RENDER_LINE
            && self.cycle < DOTS_PER_SCANLINE && self.v <= 0x7FFF && self.t <= 0x7FFF && self.fine_x
            <= 7 && self.prefetch_incs <= 2 && self.sprite0_hit_dot < DOTS_PER_SCANLINE
    }

    /// The reset signal: registers and latches are cleared, memory and position stay.
    pub fn reset(&mut self)
        ensures
            final(self)@ == old(self)@.was_reset(),
            old(self)@.wf() ==> final(self)@.wf(),
            old(self)@.sound() ==> final(self)@.sound(),
            old(self)@.precedes(final(self)@),
    {
        self.ctrl = 0;
        self.mask = 0;
        self.w = false;
        self.data_buffer = 0;
        self.nmi_line = false;
        self.nmi_pending = false;
        self.nmi_delay = false;
    }

    /// Switches the painting of the picture.
    pub fn set_output_enabled(&mut self, enabled: bool)
        ensures
            final(self)@ == (PpuModel { output_enabled: enabled, ..old(self)@ }),
    {
        self.output_enabled = enabled;
    }

    pub fn fingerprint(&self, h: &mut Fp)
        ensures
            forall|rest: Seq<u8>| #[trigger] (final(h)@ + rest) == old(h)@ + self@.stamp(rest),
    {
        reveal(PpuModel::stamp);
        reveal(PpuModel::memory_stamp);
        reveal(PpuModel::timing_stamp);
        h.u8(self.ctrl);
        h.u8(self.mask);
        h.u8(self.status);
        h.u8(self.oam_addr);
        h.u16(self.v);
        h.u16(self.t);
        h.u8(self.fine_x);
        h.bool(self.w);
        h.u8(self.data_buffer);
        h.u8(self.io_latch);
        h.bytes(self.oam.as_slice());
        h.bytes(self.vram.as_slice());
        h.bytes(self.palette.as_slice());
        h.u16(self.scanline);
        h.u16(self.cycle);
        h.u64(self.frame);
        h.bool(self.odd_frame);
        h.bool(self.nmi_line);
        h.bool(self.nmi_pending);
        h.bool(self.nmi_delay);
        h.bool(self.frame_done);
        h.u16(self.sprite0_hit_dot);
        h.bool(self.overflow_pending);
        h.u8(self.prefetch_incs);
    }

    fn update_nmi_line(&mut self, from_cpu_write: bool)
        ensures
            final(self)@ == old(self)@.nmi_updated(from_cpu_write),
    {
        let line: bool = self.status & STATUS_VBLANK != 0 && self.ctrl & CTRL_NMI_ENABLE != 0;
        if line && !self.nmi_line {
            self.nmi_pending = true;
            self.nmi_delay = from_cpu_write;
        }
        self.nmi_line = line;
    }

    /// Between two instructions: is there an NMI to serve? It is then served.
    pub fn take_nmi(&mut self) -> (taken: bool)
        ensures
            taken == old(self)@.nmi_ready(),
            final(self)@ == old(self)@.nmi_taken(),
            old(self)@.wf() ==> final(self)@.wf(),
            old(self)@.sound() ==> final(self)@.sound(),
    {
        if !self.nmi_pending {
            return false;
        }
        if self.nmi_delay {
            self.nmi_delay = false;
            return false;
        }
        self.nmi_pending = false;
        true
    }

    /// Was a frame completed? The report is withdrawn.
    pub fn take_frame_done(&mut self) -> (done: bool)
        ensures
            done == old(self)@.frame_done,
            final(self)@ == (PpuModel { frame_done: false, ..old(self)@ }),
    {
        let done: bool = self.frame_done;
        self.frame_done = false;
        done
    }

    /// Withdraws the report of a completed frame.
    pub fn clear_frame_done(&mut self)
        ensures
            final(self)@ == (PpuModel { frame_done: false, ..old(self)@ }),
    {
        self.frame_done = false;
    }

    /// The picture.
    pub fn frame_buffer(&self) -> (buffer: &FrameBuffer)
        ensures
            buffer@ == self@.screen,
    {
        &self.frame_buffer
    }

    /// Reads register `$2000` plus `reg` modulo 8, with what the read does.
    pub fn read_register(&mut self, reg: u16, cart: &Cartridge) -> (value: u8)
        requires
            old(self)@.wf(),
        ensures
            value == old(self)@.register_peek(reg),
            final(self)@ == old(self)@.register_read(reg, cart@),
            final(self)@.wf(),
            old(self)@.sound() ==> final(self)@.sound(),
            old(self)@.precedes(final(self)@),
    {
        proof {
            lemma_register_read(self@, reg, cart@);
        }
        self.apply_read(reg, cart)
    }

    fn apply_read(&mut self, reg: u16, cart: &Cartridge) -> (value: u8)
        requires
            old(self)@.wf(),
        ensures
            value == old(self)@.register_peek(reg),
            final(self)@ == old(self)@.register_read(reg, cart@),
    {
        reveal(PpuModel::register_read);
        match reg & 7 {
            2 => {
                let value: u8 = (self.status & 0xE0) | (self.io_latch & 31);
                self.status = self.status & !0x80u8;
                self.w = false;
                self.update_nmi_line(false);
                self.io_latch = (self.io_latch & 31) | (value & 0xE0);
                value
            },
            4 => {
                let value: u8 = self.peek_oam_data();
                self.io_latch = value;
                value
            },
            7 => {
                let value: u8 = self.read_data(cart);
                self.io_latch = value;
                value
            },
            _ => self.io_latch,
        }
    }

    /// What reading the register would give.
    pub fn peek_register(&self, reg: u16) -> (value: u8)
        requires
            self@.wf(),
        ensures
            value == self@.register_peek(reg),
    {
        match reg & 7 {
            2 => (self.status & 0xE0) | (self.io_latch & 31),
            4 => self.peek_oam_data(),
            7 => {
                let addr: u16 = self.v & 0x3FFF;
                if addr >= 0x3F00 {
                    self.read_palette(addr) | (self.io_latch & 0xC0)
                } else {
                    self.data_buffer
                }
            },
            _ => self.io_latch,
        }
    }

    /// Writes register `$2000` plus `reg` modulo 8.
    pub fn write_register(&mut self, reg: u16, value: u8, cart: &mut Cartridge)
        requires
            old(self)@.wf(),
        ensures
            final(self)@ == old(self)@.register_written(reg, value, old(cart)@),
            final(cart)@ == old(self)@.cart_written(reg, value, old(cart)@),
            final(self)@.wf(),
            old(self)@.sound() ==> final(self)@.sound(),
            old(self)@.precedes(final(self)@),
            old(cart)@.wf() ==> final(cart)@.wf(),
    {
        proof {
            lemma_register_written(self@, reg, value, cart@);
        }
        self.apply_write(reg, value, cart);
    }

    fn apply_write(&mut self, reg: u16, value: u8, cart: &mut Cartridge)
        requires
            old(self)@.wf(),
        ensures
            final(self)@ == old(self)@.register_written(reg, value, old(cart)@),
            final(cart)@ == old(self)@.cart_written(reg, value, old(cart)@),
            old(cart)@.wf() ==> final(cart)@.wf(),
    {
        reveal(PpuModel::register_written);
        self.io_latch = value;
        match reg & 7 {
            0 => {
                self.ctrl = value;
                self.t = (self.t & !0x0C00u16) | (((value as u16) & 3) << 10);
                self.update_nmi_line(true);
            },
            1 => {
                self.mask = value;
            },
            3 => {
                self.oam_addr = value;
            },
            4 => {
                self.oam.set(self.oam_addr as usize, value);
                self.oam_addr = self.oam_addr.wrapping_add(1);
            },
            5 => {
                self.write_scroll(value);
            },
            6 => {
                self.write_address(value);
            },
            7 => {
                proof {
                    lemma_masked_twice(self.v);
                }
                let addr: u16 = self.v & 0x3FFF;
                self.write_memory(addr, value, cart);
                self.increment_v();
            },
            _ => {},
        }
    }

    fn write_scroll(&mut self, value: u8)
        ensures
            final(self)@ == old(self)@.scroll_written(value),
    {
        if !self.w {
            self.t = (self.t & !0x001Fu16) | ((value as u16) >> 3);
            self.fine_x = value & 7;
        } else {
            self.t = (self.t & !0x73E0u16) | (((value as u16) & 7) << 12) | (((value as u16) >> 3)
                << 5);
        }
        self.w = !self.w;
    }

    fn write_address(&mut self, value: u8)
        ensures
            final(self)@ == old(self)@.address_written(value),
    {
        if !self.w {
            self.t = (self.t & 0x00FF) | (((value as u16) & 0x3F) << 8);
        } else {
            self.t = (self.t & 0x7F00) | (value as u16);
            self.v = self.t;
        }
        self.w = !self.w;
    }

    fn peek_oam_data(&self) -> (value: u8)
        requires
            self@.wf(),
        ensures
            value == self@.oam_byte(),
    {
        let value: u8 = self.oam[self.oam_addr as usize];
        if self.oam_addr & 3 == 2 {
            value & 0xE3
        } else {
            value
        }
    }

    fn read_data(&mut self, cart: &Cartridge) -> (value: u8)
        requires
            old(self)@.wf(),
        ensures
            value == old(self)@.data_value(),
            final(self)@ == old(self)@.data_read(cart@),
            final(self)@.wf(),
    {
        broadcast use lemma_mask_u16;

        let addr: u16 = self.v & 0x3FFF;
        let result: u8;
        if addr >= 0x3F00 {
            self.data_buffer = self.read_memory(addr & 0x2FFF, cart);
            result = self.read_palette(addr) | (self.io_latch & 0xC0);
        } else {
            let buffered: u8 = self.data_buffer;
            self.data_buffer = self.read_memory(addr, cart);
            result = buffered;
        }
        self.increment_v();
        result
    }

    fn increment_v(&mut self)
        ensures
            final(self)@ == old(self)@.v_moved(),
            final(self)@.v <= 0x7FFF,
    {
        broadcast use lemma_mask_u16;

        let step: u16 = if self.ctrl & 4 != 0 { 32 } else { 1 };
        self.v = self.v.wrapping_add(step) & 0x7FFF;
    }

    fn nametable_offset(addr: u16, mirroring: Mirroring) -> (offset: usize)
        ensures
            offset == nametable_position(addr, mirroring),
            offset < 0x800,
    {
        broadcast use lemma_mask_u16;

        let index: usize = (addr.wrapping_sub(0x2000) & 0xFFF) as usize;
        let table: usize = index / 0x400;
        let physical: usize = match mirroring {
            Mirroring::Horizontal => table / 2,
            Mirroring::Vertical => table % 2,
            Mirroring::FourScreen => table % 2,
            Mirroring::SingleScreenLower => 0,
            Mirroring::SingleScreenUpper => 1,
        };
        physical * 0x400 + index % 0x400
    }

    fn palette_index(addr: u16) -> (index: usize)
        ensures
            index == palette_position(addr),
            index < 32,
    {
        broadcast use lemma_mask_u16;

        let index: usize = (addr & 0x1F) as usize;
        if index % 4 == 0 {
            index % 16
        } else {
            index
        }
    }

    fn read_palette(&self, addr: u16) -> (value: u8)
        ensures
            value == self@.palette_byte(addr),
    {
        let value: u8 = self.palette[Self::palette_index(addr)] & 63;
        if self.mask & 1 != 0 {
            value & 0x30
        } else {
            value
        }
    }

    /// Reads the unit's address space. Nothing changes.
    pub fn read_memory(&self, addr: u16, cart: &Cartridge) -> (value: u8)
        requires
            self@.wf(),
        ensures
            value == self@.memory_byte(addr, cart@),
    {
        let addr: u16 = addr & 0x3FFF;
        if addr < 0x2000 {
            cart.read_chr(addr)
        } else if addr < 0x3F00 {
            self.vram[Self::nametable_offset(addr, cart.mirroring())]
        } else {
            self.read_palette(addr)
        }
    }

    fn write_memory(&mut self, addr: u16, value: u8, cart: &mut Cartridge)
        requires
            old(self)@.wf(),
        ensures
            final(self)@ == old(self)@.memory_written(addr, value, old(cart)@),
            final(cart)@ == if addr & 0x3FFF < 0x2000 {
                old(cart)@.chr_written(addr & 0x3FFF, value)
            } else {
                old(cart)@
            },
            old(cart)@.wf() ==> final(cart)@.wf(),
    {
        let addr: u16 = addr & 0x3FFF;
        if addr < 0x2000 {
            cart.write_chr(addr, value);
        } else if addr < 0x3F00 {
            let offset: usize = Self::nametable_offset(addr, cart.mirroring());
            self.vram.set(offset, value);
        } else {
            self.palette[Self::palette_index(addr)] = value & 63;
        }
    }

    fn increment_coarse_x(&mut self)
        requires
            old(self).v <= 0x7FFF,
        ensures
            final(self)@ == (PpuModel { v: tile_right(old(self).v), ..old(self)@ }),
            final(self).v <= 0x7FFF,
    {
        broadcast use lemma_mask_u16;

        proof {
            lemma_scroll_bits(self.v, 0, 0, 0);
        }
        if self.v & 0x1F == 31 {
            self.v = (self.v & !0x1Fu16) ^ 0x0400;
        } else {
            self.v = self.v.wrapping_add(1) & 0x7FFF;
        }
    }

    /// Moves the scroll position one line down.
    pub fn increment_y(&mut self)
        requires
            old(self).v <= 0x7FFF,
        ensures
            final(self)@ == (PpuModel { v: line_down(old(self).v), ..old(self)@ }),
            final(self).v <= 0x7FFF,
    {
        broadcast use lemma_mask_u16;

        if self.v & 0x7000 != 0x7000 {
            self.v = self.v.wrapping_add(0x1000) & 0x7FFF;
            return;
        }
        proof {
            lemma_scroll_bits(self.v, 0, 0, 0);
        }
        let top: u16 = self.v & !0x7000u16;
        let row: u16 = (top & 0x03E0) >> 5;
        let table: u16 = if row == 29 { top ^ 0x0800 } else { top };
        let next: u16 = if row == 29 || row == 31 { 0 } else { row + 1 };
        proof {
            lemma_scroll_bits(self.v, 0, 0, next);
        }
        self.v = (table & !0x03E0u16) | (next << 5);
    }

    fn copy_horizontal(&mut self)
        requires
            old(self).v <= 0x7FFF,
            old(self).t <= 0x7FFF,
        ensures
            final(self)@ == (PpuModel {
                v: (old(self).v & !0x041F) | (old(self).t & 0x041F),
                ..old(self)@
            }),
            final(self).v <= 0x7FFF,
    {
        proof {
            lemma_scroll_bits(self.v, self.t, 0, 0);
        }
        self.v = (self.v & !0x041Fu16) | (self.t & 0x041F);
    }

    fn copy_vertical(&mut self)
        requires
            old(self).v <= 0x7FFF,
            old(self).t <= 0x7FFF,
        ensures
            final(self)@ == (PpuModel {
                v: (old(self).v & !0x7BE0) | (old(self).t & 0x7BE0),
                ..old(self)@
            }),
            final(self).v <= 0x7FFF,
    {
        proof {
            lemma_scroll_bits(self.v, self.t, 0, 0);
        }
        self.v = (self.v & !0x7BE0u16) | (self.t & 0x7BE0);
    }

    /// Advances by `dots` dots.
    pub fn step_dots(&mut self, dots: u32, cart: &Cartridge)
        requires
            old(self)@.wf(),
        ensures
            final(self)@ == old(self)@.stepped(dots as nat, cart@),
            final(self)@.wf(),
            old(self)@.sound() ==> final(self)@.sound(),
            old(self)@.precedes(final(self)@),
            final(self)@.frame_done || final(self)@.dots_to_vblank() <= old(self)@.dots_to_vblank()
                - dots,
    {
        for i in 0..dots
            invariant
                old(self)@.wf(),
                self@ == old(self)@.stepped(i as nat, cart@),
                self@.wf(),
                old(self)@.sound() ==> self@.sound(),
                old(self)@.precedes(self@),
                self@.frame_done || self@.dots_to_vblank() <= old(self)@.dots_to_vblank() - i,
        {
            self.tick_dot(cart);
        }
    }

    fn line_step(&mut self, cart: &Cartridge)
        requires
            old(self)@.wf(),
        ensures
            final(self)@ == old(self)@.line_events(cart@),
    {
        reveal(PpuModel::line_events);
        let line: u16 = self.scanline;
        let dot: u16 = self.cycle;
        if line < 240 {
            if dot == 0 {
                self.render_scanline(line, cart);
            }
            if self.sprite0_hit_dot != 0 && dot == self.sprite0_hit_dot {
                self.status = self.status | STATUS_SPRITE0_HIT;
                self.sprite0_hit_dot = 0;
            }
            if dot == 256 && self.overflow_pending {
                self.status = self.status | STATUS_SPRITE_OVERFLOW;
                self.overflow_pending = false;
            }
        } else if line == VBLANK_LINE && dot == 1 {
            self.status = self.status | STATUS_VBLANK;
            self.frame = self.frame.wrapping_add(1);
            self.frame_done = true;
            self.update_nmi_line(false);
        } else if line == PRE_RENDER_LINE && dot == 1 {
            self.status = self.status & !0xE0u8;
            self.sprite0_hit_dot = 0;
            self.overflow_pending = false;
            self.update_nmi_line(false);
        }
    }

    fn scroll_step(&mut self, rendering: bool)
        requires
            old(self)@.wf(),
        ensures
            final(self)@ == old(self)@.scroll_events(rendering),
    {
        reveal(PpuModel::scroll_events);
        let line: u16 = self.scanline;
        let dot: u16 = self.cycle;
        if line < 240 || line == PRE_RENDER_LINE {
            if dot == 321 {
                self.prefetch_incs = 0;
            }
            if rendering {
                if 1 <= dot && dot <= 256 && dot & 7 == 0 {
                    self.increment_coarse_x();
                    if dot == 256 {
                        self.increment_y();
                    }
                } else if dot == 257 {
                    self.copy_horizontal();
                } else if 280 <= dot && dot <= 304 && line == PRE_RENDER_LINE {
                    self.copy_vertical();
                } else if dot == 328 || dot == 336 {
                    self.increment_coarse_x();
                    self.prefetch_incs = self.prefetch_incs + 1;
                }
            }
        }
    }

    /// Processes one dot and moves to the next.
    pub fn tick_dot(&mut self, cart: &Cartridge)
        requires
            old(self)@.wf(),
        ensures
            final(self)@ == old(self)@.ticked(cart@),
            final(self)@.wf(),
            old(self)@.sound() ==> final(self)@.sound(),
            old(self)@.precedes(final(self)@),
            final(self)@.frame_done || final(self)@.dots_to_vblank() < old(self)@.dots_to_vblank(),
    {
        let rendering: bool = self.mask & 0x18 != 0;
        proof {
            lemma_line_events(self@, cart@);
            lemma_scroll_events(self@.line_events(cart@), rendering);
            lemma_ticked(self@, cart@);
        }
        self.line_step(cart);
        self.scroll_step(rendering);
        self.next_dot(rendering);
    }

    fn next_dot(&mut self, rendering: bool)
        requires
            old(self)@.scanline <= 261,
            old(self)@.cycle < 341,
        ensures
            final(self)@ == old(self)@.dot_advanced(rendering),
    {
        reveal(PpuModel::dot_advanced);
        let skip_last_dot: bool = self.scanline == PRE_RENDER_LINE && self.cycle == 339
            && self.odd_frame && rendering;
        self.cycle = self.cycle + 1;
        if self.cycle >= DOTS_PER_SCANLINE || skip_last_dot {
            self.cycle = 0;
            self.scanline = self.scanline + 1;
            if self.scanline > PRE_RENDER_LINE {
                self.scanline = 0;
                self.odd_frame = !self.odd_frame;
            }
        }
    }
}

} // verus!

//! Output does not influence the machine.
//!
//! Two machines are alike when they differ at most in their picture, in the sound they recorded,
//! and in what is switched on of both. Alike machines stay alike, whatever they do. If both paint,
//! the lines that they paint are the same.

use vstd::prelude::*;

use super::progress::{
    law_a_frame_always_completes, law_frames_go_on, lemma_begun_goes_on,
};
use crate::apu::{lemma_settings_stay, smaller, ApuCore, ApuModel, AudioModel};
use crate::bus::BusModel;
use crate::cartridge::{ines, CartModel, RomId};
use crate::cpu::opcodes::{decoded, AddrMode, Mnemonic};
use crate::cpu::CpuModel;
use crate::frame::{blank_picture, picture_len};
use crate::input::FrameInput;
use crate::nes::NesModel;
use crate::ppu::PpuModel;
use crate::state::encoded;

verus! {

impl PpuModel {
    /// The unit with a blank picture, and painting switched on.
    pub open spec fn silent(self) -> PpuModel {
        PpuModel { screen: blank_picture(), output_enabled: true, ..self }
    }
}

impl BusModel {
    /// The machine with a blank picture and nothing recorded, and all output switched on.
    #[verifier::opaque]
    pub open spec fn silent(self) -> BusModel {
        BusModel {
            units: (
                self.ppu().silent(),
                ApuModel { core: self.apu().core, out: AudioModel::fresh() },
                self.cart(),
            ),
            ..self
        }
    }
}

proof fn lemma_shown(p: PpuModel, n: int, line: int)
    ensures
        p.silent().shown(n, line) == p.shown(n, line),
    decreases n,
{
    if n > 0 {
        lemma_shown(p, n - 1, line);
    }
}

proof fn lemma_overflows(p: PpuModel, n: int, line: int)
    ensures
        p.silent().overflows(n, line) == p.overflows(n, line),
    decreases n,
{
    if n > 0 {
        lemma_overflows(p, n - 1, line);
        lemma_shown(p, n - 1, line);
    }
}

proof fn lemma_top_sprite(p: PpuModel, n: int, line: int, x: int, cart: CartModel)
    ensures
        p.silent().top_sprite(n, line, x, cart) == p.top_sprite(n, line, x, cart),
    decreases n,
{
    if n > 0 {
        lemma_top_sprite(p, n - 1, line, x, cart);
        lemma_shown(p, n - 1, line);
    }
}

proof fn lemma_hit_dot(p: PpuModel, n: int, line: int, cart: CartModel)
    ensures
        p.silent().hit_dot(n, line, cart) == p.hit_dot(n, line, cart),
    decreases n,
{
    if n > 0 {
        lemma_hit_dot(p, n - 1, line, cart);
        lemma_top_sprite(p, 64, line, n - 1, cart);
    }
}

proof fn lemma_line_events(p: PpuModel, cart: CartModel)
    ensures
        p.silent().line_events(cart).silent() == p.line_events(cart).silent(),
{
    reveal(PpuModel::line_events);
    lemma_hit_dot(p, 255, p.scanline as int, cart);
    lemma_overflows(p, 64, p.scanline as int);
}

proof fn lemma_ticked(p: PpuModel, cart: CartModel)
    ensures
        p.silent().ticked(cart).silent() == p.ticked(cart).silent(),
{
    let rendering = p.rendering();
    lemma_line_events(p, cart);
    let a = p.line_events(cart);
    let b = p.silent().line_events(cart);
    lemma_scroll_events(a, b, rendering);
    lemma_dot_advanced(a.scroll_events(rendering), b.scroll_events(rendering), rendering);
}

proof fn lemma_scroll_events(a: PpuModel, b: PpuModel, rendering: bool)
    requires
        a.silent() == b.silent(),
    ensures
        a.scroll_events(rendering).silent() == b.scroll_events(rendering).silent(),
{
    reveal(PpuModel::scroll_events);
}

proof fn lemma_dot_advanced(a: PpuModel, b: PpuModel, rendering: bool)
    requires
        a.silent() == b.silent(),
    ensures
        a.dot_advanced(rendering).silent() == b.dot_advanced(rendering).silent(),
{
    reveal(PpuModel::dot_advanced);
}

proof fn lemma_ppu_stepped(a: PpuModel, b: PpuModel, n: nat, cart: CartModel)
    requires
        a.silent() == b.silent(),
    ensures
        a.stepped(n, cart).silent() == b.stepped(n, cart).silent(),
    decreases n,
{
    if n > 0 {
        let m = (n - 1) as nat;
        lemma_ppu_stepped(a, b, m, cart);
        lemma_ticked(a.stepped(m, cart), cart);
        lemma_ticked(b.stepped(m, cart), cart);
    }
}

proof fn lemma_ppu_registers(a: PpuModel, b: PpuModel, reg: u16, value: u8, cart: CartModel)
    requires
        a.silent() == b.silent(),
    ensures
        a.register_peek(reg) == b.register_peek(reg),
        a.register_read(reg, cart).silent() == b.register_read(reg, cart).silent(),
        a.cart_written(reg, value, cart) == b.cart_written(reg, value, cart),
{
    reveal(PpuModel::register_read);
}

proof fn lemma_ppu_written(a: PpuModel, b: PpuModel, reg: u16, value: u8, cart: CartModel)
    requires
        a.silent() == b.silent(),
    ensures
        a.register_written(reg, value, cart).silent() == b.register_written(
            reg,
            value,
            cart,
        ).silent(),
{
    reveal(PpuModel::register_written);
}

impl BusModel {
    /// The machines differ at most in their output.
    #[verifier::opaque]
    pub open spec fn alike(self, other: BusModel) -> bool {
        self.silent() == other.silent()
    }
}

/// The parts of alike machines.
pub proof fn lemma_parts_alike(a: BusModel, b: BusModel)
    ensures
        a.alike(b) == {
            &&& a.ram == b.ram
            &&& a.ppu().silent() == b.ppu().silent()
            &&& a.apu().core == b.apu().core
            &&& a.cart() == b.cart()
            &&& a.pad0 == b.pad0
            &&& a.pad1 == b.pad1
            &&& a.total_cycles == b.total_cycles
            &&& a.open_bus == b.open_bus
            &&& a.pending_oam_dma == b.pending_oam_dma
            &&& a.flat_ram == b.flat_ram
            &&& a.access_log == b.access_log
        },
{
    reveal(BusModel::alike);
    reveal(BusModel::silent);
    if a.silent() == b.silent() {
        assert(a.silent().units.0 == b.silent().units.0);
        assert(a.silent().units.1 == b.silent().units.1);
        assert(a.silent().units.2 == b.silent().units.2);
    }
}

proof fn lemma_peeked_alike(a: BusModel, b: BusModel, addr: u16)
    requires
        a.alike(b),
    ensures
        a.peeked(addr) == b.peeked(addr),
{
    lemma_parts_alike(a, b);
    lemma_ppu_registers(a.ppu(), b.ppu(), (0x2000 + (addr & 7)) as u16, 0, a.cart());
}

proof fn lemma_before_read_alike(a: BusModel, b: BusModel, addr: u16)
    requires
        a.alike(b),
    ensures
        a.before_read(addr).alike(b.before_read(addr)),
{
    lemma_parts_alike(a, b);
    lemma_parts_alike(a.before_read(addr), b.before_read(addr));
}

proof fn lemma_read_alike(a: BusModel, b: BusModel, addr: u16)
    requires
        a.alike(b),
    ensures
        a.value_read(addr) == b.value_read(addr),
        a.after_read(addr).alike(b.after_read(addr)),
{
    reveal(BusModel::value_read);
    reveal(BusModel::after_read);
    lemma_before_read_alike(a, b, addr);
    let c = a.before_read(addr);
    let d = b.before_read(addr);
    lemma_peeked_alike(c, d, addr);
    lemma_parts_alike(a, b);
    lemma_parts_alike(c, d);
    lemma_ppu_registers(a.ppu(), b.ppu(), (0x2000 + (addr & 7)) as u16, 0, a.cart());
    lemma_parts_alike(a.after_read(addr), b.after_read(addr));
}

proof fn lemma_written_alike(
    a: BusModel,
    b: BusModel,
    addr: u16,
    value: u8,
    consecutive: bool,
)
    requires
        a.alike(b),
    ensures
        a.written(addr, value, consecutive).alike(b.written(addr, value, consecutive)),
{
    reveal(BusModel::written);
    lemma_parts_alike(a, b);
    let reg = (0x2000 + (addr & 7)) as u16;
    lemma_ppu_registers(a.ppu(), b.ppu(), reg, value, a.cart());
    lemma_ppu_written(a.ppu(), b.ppu(), reg, value, a.cart());
    lemma_parts_alike(a.written(addr, value, consecutive), b.written(addr, value, consecutive));
}

proof fn lemma_ran_alike(a: BusModel, b: BusModel, n: int)
    requires
        a.alike(b),
    ensures
        a.ran(n).alike(b.ran(n)),
        a.ran(n).stall_cleared().alike(b.ran(n).stall_cleared()),
{
    lemma_parts_alike(a, b);
    lemma_ppu_stepped(a.ppu(), b.ppu(), (3 * n) as nat, a.cart());
    lemma_parts_alike(a.ran(n), b.ran(n));
    lemma_parts_alike(a.ran(n).stall_cleared(), b.ran(n).stall_cleared());
}

proof fn lemma_copied_alike(a: BusModel, b: BusModel, base: u16, n: int)
    requires
        a.alike(b),
    ensures
        a.copied(base, n).alike(b.copied(base, n)),
    decreases n,
{
    if n > 0 {
        lemma_copied_alike(a, b, base, n - 1);
        let addr = base.wrapping_add((n - 1) as u16);
        let c = a.copied(base, n - 1);
        let d = b.copied(base, n - 1);
        lemma_read_alike(c, d, addr);
        lemma_parts_alike(a, b);
        lemma_parts_alike(c.after_read(addr), d.after_read(addr));
        lemma_parts_alike(a.copied(base, n), b.copied(base, n));
    }
}

proof fn lemma_nmi_ready_alike(a: BusModel, b: BusModel)
    requires
        a.alike(b),
    ensures
        a.nmi_ready() == b.nmi_ready(),
{
    reveal(BusModel::nmi_ready);
    lemma_parts_alike(a, b);
}

proof fn lemma_nmi_polled_alike(a: BusModel, b: BusModel)
    requires
        a.alike(b),
    ensures
        a.nmi_polled().alike(b.nmi_polled()),
{
    reveal(BusModel::nmi_polled);
    lemma_parts_alike(a, b);
    lemma_parts_alike(a.nmi_polled(), b.nmi_polled());
}

proof fn lemma_interrupts_alike(a: BusModel, b: BusModel)
    requires
        a.alike(b),
    ensures
        a.interrupts() == b.interrupts(),
{
    reveal(BusModel::interrupts);
    lemma_parts_alike(a, b);
}

impl PpuModel {
    /// How many rows of the frame that is on its way are painted.
    pub open spec fn rows_painted(self) -> int {
        if self.after_vblank() {
            0
        } else if self.scanline >= 240 {
            240
        } else if self.cycle == 0 {
            self.scanline as int
        } else {
            self.scanline + 1
        }
    }

    /// Both units paint, and what they painted of the frame that is on its way is the same. Where
    /// the frame is completed that is the whole picture.
    pub open spec fn paints_like(self, other: PpuModel) -> bool {
        &&& self.output_enabled && other.output_enabled
        &&& self.screen.len() == picture_len() && other.screen.len() == picture_len()
        &&& self.scanline <= 261 && self.cycle < 341
        &&& self.frame_done ==> self.screen == other.screen
        &&& forall|i: int|
            0 <= i < self.rows_painted() * 1024 ==> #[trigger] self.screen[i] == other.screen[i]
    }
}

proof fn lemma_line_colors(p: PpuModel, line: int, cart: CartModel)
    ensures
        p.silent().line_colors(line, cart) == p.line_colors(line, cart),
{
    assert forall|x: int| p.silent().pixel(line, x, cart) == #[trigger] p.pixel(
        line,
        x,
        cart,
    ) by {
        lemma_top_sprite(p, 64, line, x, cart);
    }
    assert(p.silent().line_colors(line, cart) =~= p.line_colors(line, cart));
}

/// A line is painted the same.
proof fn lemma_line_painted_like(p: PpuModel, q: PpuModel, cart: CartModel)
    requires
        p.silent() == q.silent(),
        p.paints_like(q),
        p.scanline < 240,
        p.cycle == 0,
    ensures
        ({
            let a = p.rendered(p.scanline, cart).screen;
            let b = q.rendered(q.scanline, cart).screen;
            &&& a.len() == b.len() == picture_len()
            &&& p.frame_done ==> a == b
            &&& forall|i: int| 0 <= i < (p.scanline + 1) * 1024 ==> #[trigger] a[i] == b[i]
        }),
{
    lemma_line_colors(p, p.scanline as int, cart);
    lemma_line_colors(q, p.scanline as int, cart);
    let a = p.rendered(p.scanline, cart).screen;
    let b = q.rendered(q.scanline, cart).screen;
    assert forall|i: int| 0 <= i < (p.scanline + 1) * 1024 implies #[trigger] a[i] == b[i] by {
        if i < p.scanline * 1024 {
            assert(p.screen[i] == q.screen[i]);
        }
    }
    if p.frame_done {
        assert(a =~= b);
    }
}

proof fn lemma_line_events_paint_like(p: PpuModel, q: PpuModel, cart: CartModel)
    requires
        p.silent() == q.silent(),
        p.paints_like(q),
    ensures
        ({
            let a = p.line_events(cart);
            let b = q.line_events(cart);
            &&& a.output_enabled && b.output_enabled
            &&& a.screen.len() == b.screen.len() == picture_len()
            &&& a.scanline == p.scanline && a.cycle == p.cycle
            &&& a.frame_done ==> a.screen == b.screen
            &&& p.scanline < 240 ==> forall|i: int|
                0 <= i < (p.scanline + 1) * 1024 ==> #[trigger] a.screen[i] == b.screen[i]
            &&& p.scanline >= 240 ==> a.screen == p.screen && b.screen == q.screen
        }),
{
    reveal(PpuModel::line_events);
    if p.scanline < 240 {
        if p.cycle == 0 {
            lemma_line_painted_like(p, q, cart);
        } else {
            assert(p.rows_painted() == p.scanline + 1);
        }
    } else if p.scanline == 241 && p.cycle == 1 {
        assert(p.rows_painted() == 240);
        assert(p.screen =~= q.screen);
    }
}

/// Scrolling and moving on paint nothing, and at most one more row is due to be painted then.
proof fn lemma_moving_on_paints_nothing(a: PpuModel, rendering: bool)
    requires
        a.scanline <= 261,
        a.cycle < 341,
    ensures
        ({
            let c = a.scroll_events(rendering).dot_advanced(rendering);
            &&& c.screen == a.screen
            &&& c.output_enabled == a.output_enabled
            &&& c.frame_done == a.frame_done
            &&& c.scanline <= 261
            &&& c.cycle < 341
            &&& a.scanline < 240 ==> c.rows_painted() <= a.scanline + 1
            &&& a.scanline >= 240 ==> c.rows_painted() <= a.rows_painted()
        }),
{
    let b = a.scroll_events(rendering);
    assert(b.screen == a.screen && b.output_enabled == a.output_enabled && b.frame_done
        == a.frame_done && b.scanline == a.scanline && b.cycle == a.cycle) by {
        reveal(PpuModel::scroll_events);
    }
    reveal(PpuModel::dot_advanced);
}

proof fn lemma_ticked_paints_like(p: PpuModel, q: PpuModel, cart: CartModel)
    requires
        p.silent() == q.silent(),
        p.paints_like(q),
    ensures
        p.ticked(cart).paints_like(q.ticked(cart)),
{
    let rendering = p.rendering();
    lemma_line_events_paint_like(p, q, cart);
    let a = p.line_events(cart);
    let b = q.line_events(cart);
    assert(q.scanline == p.scanline && q.cycle == p.cycle && q.rendering() == rendering);
    assert(b.scanline == a.scanline && b.cycle == a.cycle) by {
        lemma_line_events(p, cart);
        lemma_line_events(q, cart);
    }
    lemma_moving_on_paints_nothing(a, rendering);
    lemma_moving_on_paints_nothing(b, rendering);
    let rows = p.ticked(cart).rows_painted();
    assert(p.scanline >= 240 ==> a.rows_painted() == p.rows_painted());
    assert forall|i: int| 0 <= i < rows * 1024 implies #[trigger] a.screen[i] == b.screen[i] by {
        if p.scanline >= 240 {
            assert(i < p.rows_painted() * 1024);
            assert(p.screen[i] == q.screen[i]);
        }
    }
}

proof fn lemma_stepped_paints_like(p: PpuModel, q: PpuModel, n: nat, cart: CartModel)
    requires
        p.silent() == q.silent(),
        p.paints_like(q),
    ensures
        p.stepped(n, cart).paints_like(q.stepped(n, cart)),
    decreases n,
{
    if n > 0 {
        let m = (n - 1) as nat;
        lemma_stepped_paints_like(p, q, m, cart);
        lemma_ppu_stepped(p, q, m, cart);
        lemma_ticked_paints_like(p.stepped(m, cart), q.stepped(m, cart), cart);
    }
}

impl BusModel {
    /// The machines differ at most in their output. If they are watched, both put out, and paint
    /// the same picture.
    #[verifier::opaque]
    pub open spec fn like(self, other: BusModel, watched: bool) -> bool {
        &&& self.alike(other)
        &&& watched ==> {
            &&& self.ppu().paints_like(other.ppu())
            &&& self.apu().out.enabled && other.apu().out.enabled
        }
    }
}

/// Time does not switch the sound.
proof fn lemma_sound_stays_on(a: ApuModel, n: int, cart: CartModel)
    ensures
        a.recording(n, cart).enabled == a.out.enabled,
    decreases n,
{
    let d = smaller(a.core.next_event(), n);
    if n > 0 && d > 0 {
        lemma_settings_stay(
            a.out,
            a.out.pulse_position(a.core.pulse0.level(), a.core.pulse1.level()),
            a.out.tnd_position(
                a.core.triangle.level(),
                a.core.noise.level(),
                a.core.dmc.output_level,
            ),
            d,
        );
        lemma_sound_stays_on(
            ApuModel { core: a.core.after(d, cart), out: a.heard(d) },
            n - d,
            cart,
        );
    }
}

proof fn lemma_synced_stays_on(a: ApuModel, cart: CartModel)
    ensures
        a.synced(cart).out.enabled == a.out.enabled,
{
    lemma_sound_stays_on(a, 1, cart);
}

impl BusModel {
    /// Nothing was painted, no time has passed for the picture, and nothing was switched.
    pub open spec fn puts_out_like(self, before: BusModel) -> bool {
        let p = self.ppu();
        let q = before.ppu();
        &&& p.screen == q.screen
        &&& p.output_enabled == q.output_enabled
        &&& p.frame_done == q.frame_done
        &&& p.scanline == q.scanline
        &&& p.cycle == q.cycle
        &&& self.apu().out.enabled == before.apu().out.enabled
    }
}

proof fn lemma_accesses_paint_nothing(b: BusModel, addr: u16, value: u8, consecutive: bool)
    ensures
        b.after_read(addr).puts_out_like(b),
        b.written(addr, value, consecutive).puts_out_like(b),
{
    lemma_synced_stays_on(b.apu(), b.cart());
    let reg = (0x2000 + (addr & 7)) as u16;
    assert(b.with_ppu(b.ppu().register_read(reg, b.cart())).puts_out_like(b)) by {
        reveal(PpuModel::register_read);
    }
    assert(b.with_ppu(b.ppu().register_written(reg, value, b.cart())).puts_out_like(b)) by {
        reveal(PpuModel::register_written);
    }
    assert(b.after_read(addr).puts_out_like(b)) by {
        reveal(BusModel::after_read);
    }
    reveal(BusModel::written);
}

/// What puts out like machines that are like one another is so too.
proof fn lemma_still_like(a: BusModel, b: BusModel, watched: bool, c: BusModel, d: BusModel)
    requires
        a.like(b, watched),
        c.alike(d),
        c.puts_out_like(a),
        d.puts_out_like(b),
    ensures
        c.like(d, watched),
{
    reveal(BusModel::like);
}

broadcast proof fn lemma_read_like(a: BusModel, b: BusModel, watched: bool, addr: u16)
    requires
        #[trigger] a.like(b, watched),
    ensures
        a.value_read(addr) == b.value_read(addr),
        (#[trigger] a.after_read(addr)).like(b.after_read(addr), watched),
{
    assert(a.alike(b)) by {
        reveal(BusModel::like);
    }
    lemma_read_alike(a, b, addr);
    lemma_accesses_paint_nothing(a, addr, 0, false);
    lemma_accesses_paint_nothing(b, addr, 0, false);
    lemma_still_like(a, b, watched, a.after_read(addr), b.after_read(addr));
}

broadcast proof fn lemma_written_like(
    a: BusModel,
    b: BusModel,
    watched: bool,
    addr: u16,
    value: u8,
    consecutive: bool,
)
    requires
        #[trigger] a.like(b, watched),
    ensures
        (#[trigger] a.written(addr, value, consecutive)).like(
            b.written(addr, value, consecutive),
            watched,
        ),
{
    assert(a.alike(b)) by {
        reveal(BusModel::like);
    }
    lemma_written_alike(a, b, addr, value, consecutive);
    lemma_accesses_paint_nothing(a, addr, value, consecutive);
    lemma_accesses_paint_nothing(b, addr, value, consecutive);
    lemma_still_like(
        a,
        b,
        watched,
        a.written(addr, value, consecutive),
        b.written(addr, value, consecutive),
    );
}

proof fn lemma_ran_like(a: BusModel, b: BusModel, watched: bool, n: int)
    requires
        a.like(b, watched),
    ensures
        a.ran(n).like(b.ran(n), watched),
        a.ran(n).stall_cleared().like(b.ran(n).stall_cleared(), watched),
{
    reveal(BusModel::like);
    lemma_ran_alike(a, b, n);
    if watched {
        lemma_parts_alike(a, b);
        lemma_stepped_paints_like(a.ppu(), b.ppu(), (3 * n) as nat, a.cart());
        lemma_stepped_stays_on(a.apu(), n, a.cart());
        lemma_stepped_stays_on(b.apu(), n, b.cart());
    }
}

proof fn lemma_stepped_stays_on(a: ApuModel, n: int, cart: CartModel)
    ensures
        a.stepped(n, cart).out.enabled == a.out.enabled,
{
    let skipped = smaller(a.core.ahead as int, n);
    let c = ApuModel { core: ApuCore { ahead: (a.core.ahead - skipped) as u8, ..a.core }, ..a };
    lemma_sound_stays_on(c, n - skipped, cart);
}

broadcast proof fn lemma_advanced_like(a: BusModel, b: BusModel, watched: bool, n: int)
    requires
        #[trigger] a.like(b, watched),
    ensures
        (#[trigger] a.advanced(n)).like(b.advanced(n), watched),
{
    reveal(BusModel::advanced);
    lemma_ran_like(a, b, watched, n);
    let stall = a.ran(n).apu().core.dmc_stall as int;
    assert(b.ran(n).apu().core.dmc_stall == stall) by {
        reveal(BusModel::like);
        lemma_parts_alike(a.ran(n), b.ran(n));
    }
    lemma_ran_like(a.ran(n).stall_cleared(), b.ran(n).stall_cleared(), watched, stall);
}

proof fn lemma_copied_like(a: BusModel, b: BusModel, watched: bool, base: u16, n: int)
    requires
        a.like(b, watched),
    ensures
        a.copied(base, n).like(b.copied(base, n), watched),
    decreases n,
{
    if n > 0 {
        lemma_copied_like(a, b, watched, base, n - 1);
        let addr = base.wrapping_add((n - 1) as u16);
        let c = a.copied(base, n - 1);
        let d = b.copied(base, n - 1);
        lemma_read_like(c, d, watched, addr);
        reveal(BusModel::like);
        lemma_copied_alike(a, b, base, n);
        lemma_parts_alike(a, b);
    }
}

broadcast proof fn lemma_dma_run_like(a: BusModel, b: BusModel, watched: bool)
    requires
        #[trigger] a.like(b, watched),
    ensures
        (#[trigger] a.dma_run()).like(b.dma_run(), watched),
{
    reveal(BusModel::dma_run);
    assert(a.pending_oam_dma == b.pending_oam_dma) by {
        reveal(BusModel::like);
        lemma_parts_alike(a, b);
    }
    if let Some(page) = a.pending_oam_dma {
        let base = (page * 256) as u16;
        let c = BusModel { pending_oam_dma: None, ..a };
        let d = BusModel { pending_oam_dma: None, ..b };
        assert(c.like(d, watched)) by {
            reveal(BusModel::like);
            lemma_parts_alike(a, b);
            lemma_parts_alike(c, d);
        }
        lemma_copied_like(c, d, watched, base, 256);
        let e = c.copied(base, 256);
        let f = d.copied(base, 256);
        assert(e.total_cycles == f.total_cycles) by {
            reveal(BusModel::like);
            lemma_parts_alike(e, f);
        }
        lemma_advanced_like(e, f, watched, e.dma_cycles());
    }
}

broadcast proof fn lemma_nmi_ready_like(a: BusModel, b: BusModel, watched: bool)
    requires
        #[trigger] a.like(b, watched),
    ensures
        #[trigger] a.nmi_ready() == b.nmi_ready(),
{
    reveal(BusModel::like);
    lemma_nmi_ready_alike(a, b);
}

broadcast proof fn lemma_nmi_polled_like(a: BusModel, b: BusModel, watched: bool)
    requires
        #[trigger] a.like(b, watched),
    ensures
        (#[trigger] a.nmi_polled()).like(b.nmi_polled(), watched),
{
    reveal(BusModel::like);
    lemma_nmi_polled_alike(a, b);
    reveal(BusModel::nmi_polled);
}

broadcast proof fn lemma_interrupts_like(a: BusModel, b: BusModel, watched: bool)
    requires
        #[trigger] a.like(b, watched),
    ensures
        #[trigger] a.interrupts() == b.interrupts(),
{
    reveal(BusModel::like);
    lemma_interrupts_alike(a, b);
}

/// Whatever machines do, they stay as like as they are.
broadcast group group_like {
    lemma_read_like,
    lemma_written_like,
    lemma_advanced_like,
    lemma_dma_run_like,
    lemma_nmi_ready_like,
    lemma_nmi_polled_like,
    lemma_interrupts_like,
}

impl CpuModel {
    /// The machines differ at most in their output.
    pub open spec fn alike(self, other: CpuModel) -> bool {
        &&& self.a == other.a
        &&& self.x == other.x
        &&& self.y == other.y
        &&& self.sp == other.sp
        &&& self.pc == other.pc
        &&& self.status == other.status
        &&& self.jammed == other.jammed
        &&& self.irq_sample == other.irq_sample
        &&& self.irq_masked == other.irq_masked
        &&& self.bus.alike(other.bus)
    }

    /// The machines differ at most in their output. If they are watched, both put out, and paint
    /// the same picture.
    pub open spec fn like(self, other: CpuModel, watched: bool) -> bool {
        &&& self.a == other.a
        &&& self.x == other.x
        &&& self.y == other.y
        &&& self.sp == other.sp
        &&& self.pc == other.pc
        &&& self.status == other.status
        &&& self.jammed == other.jammed
        &&& self.irq_sample == other.irq_sample
        &&& self.irq_masked == other.irq_masked
        &&& self.bus.like(other.bus, watched)
    }
}

proof fn lemma_locating_like(c: CpuModel, d: CpuModel, watched: bool, mode: AddrMode)
    requires
        c.like(d, watched),
    ensures
        c.locating(mode).0.like(d.locating(mode).0, watched),
        c.locating(mode).1 == d.locating(mode).1,
{
    broadcast use group_like;

    reveal(CpuModel::locating);
}

proof fn lemma_caught_up_like(
    c: CpuModel,
    d: CpuModel,
    watched: bool,
    lead: int,
    dummy: Option<u16>,
)
    requires
        c.like(d, watched),
    ensures
        c.caught_up(lead, dummy).like(d.caught_up(lead, dummy), watched),
{
    broadcast use group_like;

    reveal(CpuModel::caught_up);
}

proof fn lemma_interrupted_like(c: CpuModel, d: CpuModel, watched: bool, vector: u16)
    requires
        c.like(d, watched),
    ensures
        c.interrupted(vector).like(d.interrupted(vector), watched),
{
    broadcast use group_like;

    reveal(CpuModel::interrupted);
}

proof fn lemma_value_applied_like(
    c: CpuModel,
    d: CpuModel,
    watched: bool,
    mnemonic: Mnemonic,
    v: u8,
)
    requires
        c.like(d, watched),
    ensures
        c.value_applied(mnemonic, v).like(d.value_applied(mnemonic, v), watched),
{
    reveal(CpuModel::value_applied);
    reveal(CpuModel::loaded);
    reveal(CpuModel::calculated);
    reveal(CpuModel::tested);
    reveal(CpuModel::masked);
}

proof fn lemma_registers_moved_like(c: CpuModel, d: CpuModel, watched: bool, mnemonic: Mnemonic)
    requires
        c.like(d, watched),
    ensures
        c.registers_moved(mnemonic).like(d.registers_moved(mnemonic), watched),
{
    reveal(CpuModel::registers_moved);
}

proof fn lemma_modified_like(
    c: CpuModel,
    d: CpuModel,
    watched: bool,
    mnemonic: Mnemonic,
    mode: AddrMode,
    addr: u16,
)
    requires
        c.like(d, watched),
    ensures
        c.modified(mnemonic, mode, addr).like(d.modified(mnemonic, mode, addr), watched),
{
    broadcast use group_like;

    reveal(CpuModel::modified);
}

proof fn lemma_stacked_like(c: CpuModel, d: CpuModel, watched: bool, mnemonic: Mnemonic)
    requires
        c.like(d, watched),
    ensures
        c.stacked(mnemonic).like(d.stacked(mnemonic), watched),
{
    broadcast use group_like;

    reveal(CpuModel::stacked);
}

proof fn lemma_jumped_like(c: CpuModel, d: CpuModel, watched: bool, mnemonic: Mnemonic, addr: u16)
    requires
        c.like(d, watched),
    ensures
        c.jumped(mnemonic, addr).like(d.jumped(mnemonic, addr), watched),
{
    broadcast use group_like;

    reveal(CpuModel::jumped);
}

proof fn lemma_executing_like(
    c: CpuModel,
    d: CpuModel,
    watched: bool,
    mnemonic: Mnemonic,
    mode: AddrMode,
    addr: u16,
)
    requires
        c.like(d, watched),
    ensures
        c.executing(mnemonic, mode, addr).0.like(d.executing(mnemonic, mode, addr).0, watched),
        c.executing(mnemonic, mode, addr).1 == d.executing(mnemonic, mode, addr).1,
{
    broadcast use group_like;

    reveal(CpuModel::executing);
    let v = c.bus.value_read(addr);
    lemma_value_applied_like(c.reading(addr).0, d.reading(addr).0, watched, mnemonic, v);
    lemma_registers_moved_like(c, d, watched, mnemonic);
    lemma_modified_like(c, d, watched, mnemonic, mode, addr);
    lemma_stacked_like(c, d, watched, mnemonic);
    lemma_jumped_like(c, d, watched, mnemonic, addr);
}

proof fn lemma_running_like(c: CpuModel, d: CpuModel, watched: bool)
    requires
        c.like(d, watched),
    ensures
        c.running().0.like(d.running().0, watched),
        c.running().1 == d.running().1,
{
    broadcast use group_like;

    reveal(CpuModel::running);
    let (f, opcode) = c.fetching();
    let g = d.fetching().0;
    let info = decoded(opcode);
    lemma_locating_like(f, g, watched, info.mode);
    let (l, operand) = f.locating(info.mode);
    let k = g.locating(info.mode).0;
    let lead = operand.cycles(info) - 1;
    let dummy = operand.dummy(info);
    lemma_caught_up_like(l, k, watched, lead, dummy);
    let r = l.caught_up(lead, dummy);
    let s = k.caught_up(lead, dummy);
    lemma_executing_like(
        CpuModel { irq_sample: r.bus.interrupts(), ..r },
        CpuModel { irq_sample: s.bus.interrupts(), ..s },
        watched,
        info.mnemonic,
        info.mode,
        operand.addr,
    );
}

proof fn lemma_stepping_like(c: CpuModel, d: CpuModel, watched: bool)
    requires
        c.like(d, watched),
    ensures
        c.stepping().0.like(d.stepping().0, watched),
        c.stepping().1 == d.stepping().1,
{
    broadcast use group_like;

    reveal(CpuModel::stepping);
    assert(c.bus.nmi_ready() == d.bus.nmi_ready());
    assert(c.nmi_polled().like(d.nmi_polled(), watched));
    lemma_interrupted_like(c.nmi_polled(), d.nmi_polled(), watched, 0xFFFA);
    lemma_interrupted_like(c.nmi_polled(), d.nmi_polled(), watched, 0xFFFE);
    lemma_running_like(c.nmi_polled(), d.nmi_polled(), watched);
}

proof fn lemma_after_like(c: CpuModel, d: CpuModel, watched: bool, n: nat)
    requires
        c.like(d, watched),
    ensures
        c.after(n).like(d.after(n), watched),
    decreases n,
{
    if n > 0 {
        lemma_after_like(c, d, watched, (n - 1) as nat);
        lemma_stepping_like(c.after((n - 1) as nat), d.after((n - 1) as nat), watched);
    }
}

proof fn lemma_frame_done_like(c: CpuModel, d: CpuModel, watched: bool)
    requires
        c.like(d, watched),
    ensures
        c.frame_done() == d.frame_done(),
        c.frame_cleared().like(d.frame_cleared(), watched),
{
    reveal(BusModel::like);
    lemma_parts_alike(c.bus, d.bus);
    lemma_parts_alike(c.frame_cleared().bus, d.frame_cleared().bus);
}

proof fn lemma_frame_steps_like(c: CpuModel, d: CpuModel, watched: bool)
    requires
        c.like(d, watched),
        c.bus.wf(),
        d.bus.wf(),
    ensures
        c.frame_steps() == d.frame_steps(),
{
    law_a_frame_always_completes(c);
    law_a_frame_always_completes(d);
    let n = c.frame_steps();
    lemma_after_like(c, d, watched, n);
    lemma_frame_done_like(c.after(n), d.after(n), watched);
    assert forall|k: nat| k < n implies !#[trigger] d.after(k).frame_done() by {
        lemma_after_like(c, d, watched, k);
        lemma_frame_done_like(c.after(k), d.after(k), watched);
        assert(!c.after(k).frame_done());
    }
    assert(d.completes_at(n));
}

impl NesModel {
    /// The machines differ at most in their output.
    pub open spec fn alike(self, other: NesModel) -> bool {
        self.cpu.alike(other.cpu) && self.frame_count == other.frame_count
    }

    /// The machines differ at most in their output. If they are watched, both put out, and paint
    /// the same picture.
    pub open spec fn like(self, other: NesModel, watched: bool) -> bool {
        self.cpu.like(other.cpu, watched) && self.frame_count == other.frame_count
    }

    /// The machine paints its picture and records its sound.
    pub open spec fn puts_out(self) -> bool {
        self.cpu.bus.ppu().output_enabled && self.cpu.bus.apu().out.enabled
    }

    /// What is on the screen.
    pub open spec fn picture(self) -> Seq<u8> {
        self.cpu.bus.ppu().screen
    }
}

proof fn lemma_begun_like(m: NesModel, n: NesModel, watched: bool, input: FrameInput)
    requires
        m.like(n, watched),
    ensures
        m.begun(input).like(n.begun(input), watched),
{
    broadcast use group_like;

    let b = m.cpu.bus;
    let c = n.cpu.bus;
    let d = b.with_ppu(b.ppu().was_reset()).with_apu(b.apu().was_reset(true));
    let e = c.with_ppu(c.ppu().was_reset()).with_apu(c.apu().was_reset(true));
    assert(d.like(e, watched)) by {
        reveal(BusModel::like);
        lemma_parts_alike(b, c);
        lemma_parts_alike(d, e);
    }
    let r = if input.reset { m.was_reset() } else { m };
    let s = if input.reset { n.was_reset() } else { n };
    assert(r.cpu.like(s.cpu, watched));
    let p = r.cpu.on(r.cpu.bus.holding(input.p1, input.p2));
    let q = s.cpu.on(s.cpu.bus.holding(input.p1, input.p2));
    assert(p.like(q, watched)) by {
        reveal(BusModel::like);
        lemma_parts_alike(r.cpu.bus, s.cpu.bus);
        lemma_parts_alike(p.bus, q.bus);
    }
    lemma_frame_done_like(p, q, watched);
}

/// Machines that are like one another run the same frame, and if they are watched it ends with the
/// same picture.
pub proof fn lemma_frame_like(m: NesModel, n: NesModel, watched: bool, input: FrameInput)
    requires
        m.wf(),
        n.wf(),
        m.like(n, watched),
    ensures
        m.ran_frame(input).like(n.ran_frame(input), watched),
        watched ==> m.ran_frame(input).picture() == n.ran_frame(input).picture(),
        watched ==> m.ran_frame(input).puts_out() && n.ran_frame(input).puts_out(),
{
    reveal(NesModel::ran_frame);
    lemma_begun_goes_on(m, input);
    lemma_begun_goes_on(n, input);
    lemma_begun_like(m, n, watched, input);
    let c = m.begun(input).cpu;
    let d = n.begun(input).cpu;
    lemma_frame_steps_like(c, d, watched);
    law_a_frame_always_completes(c);
    let k = c.frame_steps();
    lemma_after_like(c, d, watched, k);
    lemma_frame_done_like(c.after(k), d.after(k), watched);
    assert(c.after(k).frame_done());
    reveal(BusModel::like);
}

/// A machine that was switched on puts out.
pub proof fn lemma_booted_puts_out(rom: Seq<u8>, rom_id: RomId)
    ensures
        NesModel::booted(rom, rom_id).puts_out(),
{
    broadcast use group_like;

    let b = BusModel::powered_on(ines::cartridge_in(rom, rom_id));
    assert(b.like(b, true)) by {
        reveal(BusModel::like);
        reveal(BusModel::alike);
    }
    let m = NesModel::booted(rom, rom_id);
    assert(m.like(m, true));
    reveal(BusModel::like);
}

/// Where nobody watches, to be like one another is to be alike.
pub proof fn lemma_unwatched(m: NesModel, n: NesModel)
    ensures
        m.like(n, false) == m.alike(n),
        forall|watched: bool| #[trigger] m.like(n, watched) ==> m.alike(n),
        m.cpu.like(n.cpu, false) == m.cpu.alike(n.cpu),
{
    reveal(BusModel::like);
}

/// Machines that differ in their output alone run the same frame.
pub proof fn law_output_does_not_matter(m: NesModel, n: NesModel, input: FrameInput)
    requires
        m.wf(),
        n.wf(),
        m.alike(n),
    ensures
        m.ran_frame(input).alike(n.ran_frame(input)),
{
    lemma_unwatched(m, n);
    lemma_frame_like(m, n, false, input);
    lemma_unwatched(m.ran_frame(input), n.ran_frame(input));
}

/// So do they in any number of frames.
pub proof fn law_output_never_matters(m: NesModel, n: NesModel, inputs: Seq<FrameInput>)
    requires
        m.wf(),
        n.wf(),
        m.alike(n),
    ensures
        m.ran_frames(inputs).alike(n.ran_frames(inputs)),
    decreases inputs.len(),
{
    if inputs.len() > 0 {
        let earlier = inputs.drop_last();
        law_output_never_matters(m, n, earlier);
        law_frames_go_on(m, earlier);
        law_frames_go_on(n, earlier);
        law_output_does_not_matter(m.ran_frames(earlier), n.ran_frames(earlier), inputs.last());
    }
}

/// And they run the same instruction, in the same time.
pub proof fn law_output_does_not_matter_to_a_step(m: NesModel, n: NesModel)
    requires
        m.alike(n),
    ensures
        m.cpu.stepping().0.alike(n.cpu.stepping().0),
        m.cpu.stepping().1 == n.cpu.stepping().1,
{
    reveal(BusModel::like);
    lemma_stepping_like(m.cpu, n.cpu, false);
}

/// Switching output, choosing the channels that are heard and taking the sound away leave the
/// machine alike.
pub proof fn law_output_settings_are_output(m: NesModel, enabled: bool, out: AudioModel)
    ensures
        m.alike(m.with_output(enabled)),
        m.alike(m.with_sound(out)),
{
    lemma_parts_alike(m.cpu.bus, m.with_output(enabled).cpu.bus);
    lemma_parts_alike(m.cpu.bus, m.with_sound(out).cpu.bus);
}

/// Machines that differ in their output alone have one fingerprint and one save state.
pub proof fn law_output_is_not_recorded(m: NesModel, n: NesModel)
    requires
        m.alike(n),
    ensures
        m.stamp() == n.stamp(),
        encoded(m) == encoded(n),
{
    let b = m.cpu.bus;
    let c = n.cpu.bus;
    lemma_parts_alike(b, c);
    reveal(CpuModel::stamp);
    reveal(BusModel::stamp);
    reveal(BusModel::line_stamp);
    reveal(NesModel::saved);
    reveal(CpuModel::saved);
    reveal(BusModel::saved);
    lemma_ppu_records_alike(b.ppu(), c.ppu());
}

proof fn lemma_ppu_records_alike(p: PpuModel, q: PpuModel)
    requires
        p.silent() == q.silent(),
    ensures
        forall|rest: Seq<u8>| #[trigger] p.stamp(rest) == q.stamp(rest),
        forall|rest: Seq<u8>| #[trigger] p.saved(rest) == q.saved(rest),
{
    reveal(PpuModel::stamp);
    reveal(PpuModel::memory_stamp);
    reveal(PpuModel::timing_stamp);
    reveal(PpuModel::saved);
}

} // verus!

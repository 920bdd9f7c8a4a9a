//! Read-only summaries for a debugger to show.

use vstd::prelude::*;

verus! {

/// The CPU, PPU, APU and mapper at one moment. The default value stands for "nothing received
/// yet"; no running machine is all zero.
#[derive(Debug, Clone, Default, PartialEq, Eq)]
pub struct DebugSnapshot {
    pub cpu_pc: u16,
    pub cpu_a: u8,
    pub cpu_x: u8,
    pub cpu_y: u8,
    pub cpu_sp: u8,
    pub cpu_status: u8,
    pub cpu_cycles: u64,
    /// The instruction at the program counter.
    pub cpu_disassembly: String,
    pub cpu_jammed: bool,
    pub frame_count: u64,
    pub ppu_scanline: u16,
    pub ppu_cycle: u16,
    pub ppu_frame: u64,
    pub ppu_ctrl: u8,
    pub ppu_mask: u8,
    pub ppu_status: u8,
    pub ppu_oam_addr: u8,
    pub ppu_v: u16,
    pub ppu_t: u16,
    pub ppu_fine_x: u8,
    pub ppu_w: bool,
    pub palette_ram: [u8; 32],
    /// The 64 sprites, four bytes each: Y, tile, attributes, X.
    pub oam: Vec<u8>,
    pub apu: ApuDebug,
    pub mapper_id: u8,
    pub mapper_name: String,
    /// The mapper's registers and what they select.
    pub mapper_regs: Vec<(String, String)>,
}

#[derive(Debug, Clone, Copy, Default, PartialEq, Eq)]
pub struct PulseDebug {
    pub enabled: bool,
    pub duty: u8,
    pub length: u8,
    pub halt: bool,
    pub constant: bool,
    pub volume: u8,
    pub envelope: u8,
    pub sweep_enabled: bool,
    pub sweep_period: u8,
    pub sweep_negate: bool,
    pub sweep_shift: u8,
    pub timer_period: u16,
    pub seq: u8,
    pub output: u8,
}

#[derive(Debug, Clone, Copy, Default, PartialEq, Eq)]
pub struct TriangleDebug {
    pub enabled: bool,
    pub control: bool,
    pub linear_reload: u8,
    pub linear_counter: u8,
    pub length: u8,
    pub timer_period: u16,
    pub seq: u8,
    pub output: u8,
}

#[derive(Debug, Clone, Copy, Default, PartialEq, Eq)]
pub struct NoiseDebug {
    pub enabled: bool,
    pub mode: bool,
    pub period_index: u8,
    pub length: u8,
    pub halt: bool,
    pub constant: bool,
    pub volume: u8,
    pub envelope: u8,
    pub shift: u16,
    pub output: u8,
}

#[derive(Debug, Clone, Copy, Default, PartialEq, Eq)]
pub struct DmcDebug {
    pub irq_enabled: bool,
    pub looping: bool,
    pub rate_index: u8,
    pub sample_addr: u16,
    pub sample_length: u16,
    pub current_addr: u16,
    pub bytes_remaining: u16,
    pub output_level: u8,
    pub irq_flag: bool,
}

#[derive(Debug, Clone, Copy, Default, PartialEq, Eq)]
pub struct ApuDebug {
    pub pulse: [PulseDebug; 2],
    pub triangle: TriangleDebug,
    pub noise: NoiseDebug,
    pub dmc: DmcDebug,
    pub frame_mode5: bool,
    pub frame_inhibit_irq: bool,
    pub frame_step: u8,
    pub frame_cycle: u32,
    pub frame_irq: bool,
    /// What `$4015` reads, without bit 5.
    pub status: u8,
}

/// An image in red, green, blue and alpha.
#[derive(Debug, Clone, PartialEq, Eq)]
pub struct PpuImage {
    pub width: usize,
    pub height: usize,
    pub rgba: Vec<u8>,
}

impl PpuImage {
    /// The size matches the bytes.
    pub open spec fn wf(self) -> bool {
        self.rgba@.len() == self.width * self.height * 4
    }

    /// The colour of one pixel.
    pub open spec fn at(self, x: int, y: int) -> Seq<u8> {
        self.rgba@.subrange((y * self.width + x) * 4, (y * self.width + x) * 4 + 4)
    }

    pub fn new(width: usize, height: usize) -> (image: Self)
        requires
            width * height * 4 <= usize::MAX,
        ensures
            image.wf(),
            image.width == width,
            image.height == height,
            image.rgba@ == Seq::new((width * height * 4) as nat, |i: int| 0u8),
    {
        assert(width * height <= usize::MAX) by (nonlinear_arith)
            requires
                width * height * 4 <= usize::MAX,
        ;
        let len: usize = width * height * 4;
        let rgba: Vec<u8> = vec![0u8; len];
        assert(rgba@ =~= Seq::new((width * height * 4) as nat, |i: int| 0u8));
        PpuImage { width, height, rgba }
    }

    pub fn set_pixel(&mut self, x: usize, y: usize, rgba: [u8; 4])
        requires
            old(self).wf(),
            x < old(self).width,
            y < old(self).height,
        ensures
            final(self).wf(),
            final(self).width == old(self).width,
            final(self).height == old(self).height,
            forall|x2: int, y2: int|
                0 <= x2 < old(self).width && 0 <= y2 < old(self).height ==> #[trigger] final(self).at(
                    x2,
                    y2,
                ) == if x2 == x && y2 == y { rgba@ } else { old(self).at(x2, y2) },
    {
        let (w, h): (usize, usize) = (self.width, self.height);
        let len: usize = self.rgba.len();
        assert((y * w + x) * 4 + 4 <= w * h * 4) by (nonlinear_arith)
            requires
                x < w,
                y < h,
        ;
        assert(y * w <= usize::MAX) by (nonlinear_arith)
            requires
                (y * w + x) * 4 + 4 <= usize::MAX,
        ;
        let i: usize = (y * self.width + x) * 4;
        self.rgba.set(i, rgba[0]);
        self.rgba.set(i + 1, rgba[1]);
        self.rgba.set(i + 2, rgba[2]);
        self.rgba.set(i + 3, rgba[3]);
        assert forall|x2: int, y2: int|
            0 <= x2 < old(self).width && 0 <= y2 < old(self).height implies #[trigger] self.at(x2, y2)
            == if x2 == x && y2 == y { rgba@ } else { old(self).at(x2, y2) } by {
            lemma_pixel_places(w as int, h as int, x as int, y as int, x2, y2);
            if x2 == x && y2 == y {
                assert(self.at(x2, y2) =~= rgba@);
            } else {
                assert(self.at(x2, y2) =~= old(self).at(x2, y2));
            }
        }
    }
}

/// Different pixels of an image have different places in it.
proof fn lemma_pixel_places(w: int, h: int, x: int, y: int, x2: int, y2: int)
    by (nonlinear_arith)
    requires
        0 <= x < w,
        0 <= y < h,
        0 <= x2 < w,
        0 <= y2 < h,
    ensures
        0 <= (y2 * w + x2) * 4,
        (y2 * w + x2) * 4 + 4 <= w * h * 4,
        x2 == x && y2 == y || (y2 * w + x2) * 4 + 4 <= (y * w + x) * 4 || (y * w + x) * 4 + 4 <= (y2
            * w + x2) * 4,
{
    if y2 < y {
        assert(y2 * w + w <= y * w);
    } else if y < y2 {
        assert(y * w + w <= y2 * w);
    }
}

/// The two pattern tables, 128 by 128 each, and the four nametables, 256 by 240 each.
#[derive(Debug, Clone, PartialEq, Eq)]
pub struct PpuViews {
    pub pattern_tables: [PpuImage; 2],
    pub nametables: [PpuImage; 4],
}

} // verus!

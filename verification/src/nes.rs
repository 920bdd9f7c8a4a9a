//! The whole machine.

use vstd::prelude::*;
use vstd::string::*;

use crate::apu::{
    dmc_debug, noise_debug, pulse_debug, triangle_debug, Apu, ApuModel, AudioModel, MixSegment,
};
use crate::bus::{group_leads_to, Bus, BusModel};
use crate::cartridge::mapper::row_texts;
use crate::cartridge::{ines, Cartridge, Mirroring, RomId, RomInfo};
use crate::cpu::{Cpu, CpuModel};
use crate::debug::{DebugSnapshot, PpuViews};
use crate::error::{RomError, StateError};
use crate::fingerprint::{put_u64, xxh3_128_of, xxh3_64, xxh3_64_of, Fp};
use crate::frame::{picture_len, FrameBuffer};
use crate::input::FrameInput;
use crate::ppu::{Ppu, PpuModel};
use crate::state::parts::lemma_restored_shape;
use crate::state::wire::Tape;
use crate::state::{decode, decode_fault, encode, encoded, header_fits, machine_in};

verus! {

broadcast use group_leads_to;

/// A machine. It owns everything it is made of, so a copy of it is another machine in the same
/// state.
#[derive(Debug, Clone)]
pub struct Nes {
    pub cpu: Cpu,
    /// How often [`Nes::run_frame`] completed a frame.
    pub frame_count: u64,
}

/// A machine as a value.
pub struct NesModel {
    pub cpu: CpuModel,
    pub frame_count: u64,
}

impl View for Nes {
    type V = NesModel;

    open spec fn view(&self) -> NesModel {
        NesModel { cpu: self.cpu@, frame_count: self.frame_count }
    }
}

/// Why a file does not boot, the first reason that holds; `None` when it does.
pub open spec fn boot_refusal(rom: Seq<u8>) -> Option<RomError> {
    match ines::refusal(rom) {
        Some(error) => Some(error),
        None => if ines::header_info(rom).mirroring == Mirroring::FourScreen {
            Some(RomError::FourScreenUnsupported)
        } else {
            None
        },
    }
}

impl CpuModel {
    /// Whether a frame was completed.
    pub open spec fn frame_done(self) -> bool {
        self.bus.ppu().frame_done
    }

    /// The CPU with the report of a completed frame withdrawn.
    pub open spec fn frame_cleared(self) -> CpuModel {
        self.on(
            self.bus.with_ppu(PpuModel { frame_done: false, ..self.bus.ppu() }),
        )
    }

    /// A frame is completed by the `n`th step from here, and by none before it.
    pub open spec fn completes_at(self, n: nat) -> bool {
        &&& self.after(n).frame_done()
        &&& forall|k: nat| k < n ==> !#[trigger] self.after(k).frame_done()
    }

    /// How many steps it takes to complete a frame.
    pub open spec fn frame_steps(self) -> nat {
        choose|n: nat| self.completes_at(n)
    }
}

impl NesModel {
    /// A machine just switched on with a cartridge.
    pub open spec fn booted(rom: Seq<u8>, rom_id: RomId) -> NesModel {
        NesModel {
            cpu: CpuModel::powered_on(
                BusModel::powered_on(ines::cartridge_in(rom, rom_id)),
            ).was_reset(),
            frame_count: 0,
        }
    }

    pub open spec fn wf(self) -> bool {
        self.cpu.bus.wf()
    }

    /// What holds of a machine that ran from power-on.
    pub open spec fn sound(self) -> bool {
        self.cpu.bus.sound()
    }

    /// Vertical blank has begun, its frame was taken, and no line of the next one was reached.
    pub open spec fn between_frames(self) -> bool {
        !self.cpu.frame_done() && self.cpu.bus.ppu().after_vblank()
    }

    /// The machine after the reset button was pressed.
    pub open spec fn was_reset(self) -> NesModel {
        let b = self.cpu.bus;
        NesModel {
            cpu: self.cpu.on(
                b.with_ppu(b.ppu().was_reset()).with_apu(b.apu().was_reset(true)),
            ).was_reset(),
            ..self
        }
    }

    /// The machine at the beginning of a frame.
    pub open spec fn begun(self, input: FrameInput) -> NesModel {
        let m = if input.reset { self.was_reset() } else { self };
        NesModel {
            cpu: m.cpu.on(m.cpu.bus.holding(input.p1, input.p2)).frame_cleared(),
            ..m
        }
    }

    /// The machine after a frame: the CPU steps until the PPU completes one.
    #[verifier::opaque]
    pub open spec fn ran_frame(self, input: FrameInput) -> NesModel {
        let c = self.begun(input).cpu;
        NesModel {
            cpu: c.after(c.frame_steps()).frame_cleared(),
            frame_count: self.frame_count.wrapping_add(1),
        }
    }

    /// The machine after a frame for each input.
    pub open spec fn ran_frames(self, inputs: Seq<FrameInput>) -> NesModel
        decreases inputs.len(),
    {
        if inputs.len() == 0 {
            self
        } else {
            self.ran_frames(inputs.drop_last()).ran_frame(inputs.last())
        }
    }

    /// The machine with another sound output.
    pub open spec fn with_sound(self, out: AudioModel) -> NesModel {
        let b = self.cpu.bus;
        NesModel { cpu: self.cpu.on(b.with_apu(ApuModel { out, ..b.apu() })), ..self }
    }

    /// The machine with its output switched. Sound that waits is dropped with the switch.
    pub open spec fn with_output(self, enabled: bool) -> NesModel {
        let b = self.cpu.bus;
        let painted = NesModel {
            cpu: self.cpu.on(b.with_ppu(PpuModel { output_enabled: enabled, ..b.ppu() })),
            ..self
        };
        painted.with_sound(b.apu().out.switched(enabled))
    }

    /// A restored machine with the ROM and the output settings of the one it replaces.
    pub open spec fn continued(self, previous: NesModel) -> NesModel {
        NesModel { cpu: self.cpu.on(self.cpu.bus.continued(previous.cpu.bus)), ..self }
    }

    pub open spec fn cpu_shown(self, s: DebugSnapshot) -> bool {
        &&& s.cpu_pc == self.cpu.pc
        &&& s.cpu_a == self.cpu.a
        &&& s.cpu_x == self.cpu.x
        &&& s.cpu_y == self.cpu.y
        &&& s.cpu_sp == self.cpu.sp
        &&& s.cpu_status == self.cpu.status.raw
        &&& s.cpu_cycles == self.cpu.bus.total_cycles
        &&& s.cpu_disassembly@ == self.cpu.disassembled()
        &&& s.cpu_jammed == self.cpu.jammed
        &&& s.frame_count == self.frame_count
    }

    pub open spec fn ppu_shown(self, s: DebugSnapshot) -> bool {
        let ppu = self.cpu.bus.ppu();
        &&& s.ppu_scanline == ppu.scanline
        &&& s.ppu_cycle == ppu.cycle
        &&& s.ppu_frame == ppu.frame
        &&& s.ppu_ctrl == ppu.ctrl
        &&& s.ppu_mask == ppu.mask
        &&& s.ppu_status == ppu.status
        &&& s.ppu_oam_addr == ppu.oam_addr
        &&& s.ppu_v == ppu.v
        &&& s.ppu_t == ppu.t
        &&& s.ppu_fine_x == ppu.fine_x
        &&& s.ppu_w == ppu.w
        &&& s.palette_ram@ == ppu.palette
        &&& s.oam@ == ppu.oam
    }

    pub open spec fn apu_shown(self, s: DebugSnapshot) -> bool {
        let core = self.cpu.bus.apu().core;
        &&& s.apu.pulse@[0] == pulse_debug(core.pulse0)
        &&& s.apu.pulse@[1] == pulse_debug(core.pulse1)
        &&& s.apu.triangle == triangle_debug(core.triangle)
        &&& s.apu.noise == noise_debug(core.noise)
        &&& s.apu.dmc == dmc_debug(core.dmc)
        &&& s.apu.frame_mode5 == core.frame.mode5
        &&& s.apu.frame_inhibit_irq == core.frame.inhibit_irq
        &&& s.apu.frame_step == core.frame.step
        &&& s.apu.frame_cycle == core.frame.cycle
        &&& s.apu.frame_irq == core.frame_irq
        &&& s.apu.status == core.status()
    }

    pub open spec fn mapper_shown(self, s: DebugSnapshot) -> bool {
        let cart = self.cpu.bus.cart();
        &&& s.mapper_id == cart.mapper.number()
        &&& s.mapper_name@ == cart.mapper.label()
        &&& row_texts(s.mapper_regs@) == cart.mapper.description(
            cart.prg_rom.len(),
            cart.chr_len(),
        )
    }

    /// The bytes that a fingerprint hashes.
    pub open spec fn stamp(self) -> Seq<u8> {
        self.cpu.stamp(put_u64(self.frame_count, Seq::empty()))
    }
}

proof fn lemma_reset_keeps_going(b: BusModel)
    requires
        b.wf(),
        b.apu().was_reset(true).core.valid(),
        b.ppu().was_reset().wf(),
        b.ppu().sound() ==> b.ppu().was_reset().sound(),
        b.ppu().precedes(b.ppu().was_reset()),
    ensures
        b.leads_to(b.with_ppu(b.ppu().was_reset()).with_apu(b.apu().was_reset(true))),
{
    reveal(BusModel::wf);
    reveal(BusModel::leads_to);
}

/// Output is no part of what makes a machine well-formed.
pub proof fn lemma_output_is_free(a: BusModel, b: BusModel)
    requires
        a.wf(),
        b == a.with_ppu(
            PpuModel { output_enabled: b.ppu().output_enabled, ..a.ppu() },
        ).with_apu(ApuModel { core: a.apu().core, out: b.apu().out }),
    ensures
        a.leads_to(b),
{
    reveal(BusModel::wf);
    reveal(BusModel::leads_to);
}

proof fn lemma_frame_cleared(b: BusModel)
    requires
        b.wf(),
    ensures
        ({
            let c = b.with_ppu(PpuModel { frame_done: false, ..b.ppu() });
            &&& c.wf()
            &&& b.sound() ==> c.sound()
        }),
{
    reveal(BusModel::wf);
}

/// What comes of restoring a save state in the machine `m`.
pub open spec fn loads(m: NesModel, bytes: Seq<u8>, result: Result<(), StateError>) -> bool {
    let saved = machine_in(bytes).0;
    let readable = bytes.len() >= 8 && header_fits(bytes) && machine_in(bytes).1 is None;
    let ours = m.cpu.bus.cart().rom_id;
    let theirs = saved.cpu.bus.cart().rom_id;
    match result {
        Ok(_) => readable && saved.cpu.bus.valid() && theirs == ours,
        Err(StateError::Decode(cause)) => decode_fault(bytes) == Some(cause),
        Err(StateError::VersionMismatch { expected, found }) => bytes.len() >= 8 && !header_fits(
            bytes,
        ) && expected.is_current() && found.is_in(bytes),
        Err(StateError::Corrupt) => readable && !saved.cpu.bus.valid(),
        Err(StateError::RomMismatch { expected, found }) => readable && saved.cpu.bus.valid()
            && theirs != ours && expected == ours && found == theirs,
    }
}

pub proof fn lemma_continued(saved: NesModel, m: NesModel)
    requires
        saved.cpu.bus.valid(),
        saved.cpu.bus.ppu().palette.len() == 32,
        saved.cpu.bus.ppu().screen.len() == picture_len(),
        saved.cpu.bus.flat_ram.len() == 0,
    ensures
        saved.continued(m).wf(),
{
    reveal(BusModel::wf);
}

impl Nes {
    /// Switches a machine on with the ROM file in it.
    pub fn from_rom(rom: &[u8]) -> (result: Result<Self, RomError>)
        ensures
            match boot_refusal(rom@) {
                Some(error) => result == Err::<Nes, RomError>(error),
                None => result is Ok && result->Ok_0@ == NesModel::booted(
                    rom@,
                    RomId { hash: xxh3_128_of(rom@) },
                ) && result->Ok_0@.wf() && result->Ok_0@.sound(),
            },
    {
        let cartridge: Cartridge = match Cartridge::from_ines(rom) {
            Ok(cartridge) => cartridge,
            Err(error) => return Err(error),
        };
        if cartridge.info.mirroring == Mirroring::FourScreen {
            return Err(RomError::FourScreenUnsupported);
        }
        let mut cpu: Cpu = Cpu::new(Bus::new(cartridge));
        cpu.reset();
        Ok(Nes { cpu, frame_count: 0 })
    }

    /// Presses the reset button.
    pub fn reset(&mut self)
        requires
            old(self)@.wf(),
        ensures
            final(self)@ == old(self)@.was_reset(),
            old(self)@.cpu.bus.leads_to(final(self)@.cpu.bus),
    {
        let ghost b = self.cpu.bus@;
        assert(b.ppu().wf() && b.apu().core.wf()) by {
            reveal(BusModel::wf);
        }
        self.cpu.bus.ppu_mut().reset();
        self.cpu.bus.apu_mut().reset(true);
        proof {
            lemma_reset_keeps_going(b);
        }
        self.cpu.reset();
    }

    /// Runs one frame and returns its picture. The buttons hold for the whole frame.
    pub fn run_frame(&mut self, input: FrameInput) -> (picture: &FrameBuffer)
        requires
            old(self)@.wf(),
        ensures
            old(self)@.begun(input).cpu.completes_at(old(self)@.begun(input).cpu.frame_steps()),
            final(self)@ == old(self)@.ran_frame(input),
            picture@ == final(self)@.cpu.bus.ppu().screen,
            final(self)@.wf(),
            old(self)@.sound() ==> final(self)@.sound(),
    {
        self.advance_frame(input);
        self.cpu.bus.ppu_ref().frame_buffer()
    }

    fn begin_frame(&mut self, input: FrameInput)
        requires
            old(self)@.wf(),
        ensures
            final(self)@ == old(self)@.begun(input),
            final(self)@.wf(),
            old(self)@.sound() ==> final(self)@.sound(),
    {
        if input.reset {
            self.reset();
        }
        self.cpu.bus.hold_buttons(input.p1, input.p2);
        proof {
            lemma_frame_cleared(self.cpu.bus@);
        }
        self.cpu.bus.ppu_mut().clear_frame_done();
    }

    fn advance_frame(&mut self, input: FrameInput)
        requires
            old(self)@.wf(),
        ensures
            old(self)@.begun(input).cpu.completes_at(old(self)@.begun(input).cpu.frame_steps()),
            final(self)@ == old(self)@.ran_frame(input),
            final(self)@.wf(),
            old(self)@.sound() ==> final(self)@.sound(),
    {
        self.begin_frame(input);
        let ghost start = self.cpu@;
        let ghost count = self.frame_count;
        let ghost mut n: nat = 0;
        while !self.cpu.bus.ppu_ref().frame_done
            invariant
                self@.wf(),
                start.bus.sound() ==> self@.sound(),
                self.frame_count == count,
                self.cpu@ == start.after(n),
                forall|k: nat| k < n ==> !#[trigger] start.after(k).frame_done(),
            decreases
                    if self.cpu@.frame_done() {
                        0
                    } else {
                        self.cpu.bus@.ppu().dots_to_vblank()
                    },
        {
            let ghost before = self.cpu.bus@;
            let _: u8 = self.cpu.step();
            proof {
                reveal(BusModel::passes_to);
                reveal(BusModel::leads_to);
                reveal(BusModel::wf);
                n = n + 1;
                assert(self.cpu@ == start.after(n));
            }
        }
        proof {
            reveal(NesModel::ran_frame);
            assert(start.completes_at(n));
            lemma_frame_steps(start, n);
            lemma_frame_cleared(self.cpu.bus@);
        }
        self.cpu.bus.ppu_mut().clear_frame_done();
        self.frame_count = self.frame_count.wrapping_add(1);
    }

    /// Moves the samples that wait to the end of `out`.
    pub fn drain_audio(&mut self, out: &mut Vec<MixSegment>)
        requires
            old(self)@.wf(),
        ensures
            final(out)@ == old(out)@ + old(self)@.cpu.bus.apu().out.waiting(),
            final(self)@ == old(self)@.with_sound(old(self)@.cpu.bus.apu().out.drained()),
            old(self)@.cpu.bus.leads_to(final(self)@.cpu.bus),
    {
        let ghost b = self.cpu.bus@;
        self.cpu.bus.apu_mut().take_samples(out);
        proof {
            lemma_output_is_free(b, self.cpu.bus@);
        }
    }

    /// Sets the sample rate, in microhertz.
    pub fn set_audio_sample_rate(&mut self, rate: u64)
        requires
            old(self)@.wf(),
        ensures
            final(self)@ == old(self)@.with_sound(old(self)@.cpu.bus.apu().out.retuned(rate)),
            old(self)@.cpu.bus.leads_to(final(self)@.cpu.bus),
    {
        let ghost b = self.cpu.bus@;
        self.cpu.bus.apu_mut().set_sample_rate(rate);
        proof {
            lemma_output_is_free(b, self.cpu.bus@);
        }
    }

    pub fn audio_sample_rate(&self) -> (rate: u64)
        ensures
            rate == self@.cpu.bus.apu().out.rate,
    {
        self.cpu.bus.apu_ref().sample_rate()
    }

    /// Switches output: without it no picture is painted and no sound is recorded, and the
    /// machine runs just the same.
    pub fn set_output_enabled(&mut self, enabled: bool)
        requires
            old(self)@.wf(),
        ensures
            final(self)@ == old(self)@.with_output(enabled),
            old(self)@.cpu.bus.leads_to(final(self)@.cpu.bus),
    {
        let ghost b = self.cpu.bus@;
        self.cpu.bus.ppu_mut().set_output_enabled(enabled);
        self.cpu.bus.apu_mut().set_output_enabled(enabled);
        proof {
            lemma_output_is_free(b, self.cpu.bus@);
        }
    }

    pub fn output_enabled(&self) -> (enabled: bool)
        ensures
            enabled == self@.cpu.bus.apu().out.enabled,
    {
        self.cpu.bus.apu_ref().output_enabled()
    }

    /// Chooses the channels that are heard, one bit each.
    pub fn set_audio_channel_mask(&mut self, mask: u8)
        requires
            old(self)@.wf(),
        ensures
            final(self)@ == old(self)@.with_sound(
                AudioModel { channel_mask: mask & 0x1F, ..old(self)@.cpu.bus.apu().out },
            ),
            old(self)@.cpu.bus.leads_to(final(self)@.cpu.bus),
    {
        let ghost b = self.cpu.bus@;
        self.cpu.bus.apu_mut().set_channel_mask(mask);
        proof {
            lemma_output_is_free(b, self.cpu.bus@);
        }
    }

    pub fn audio_channel_mask(&self) -> (mask: u8)
        ensures
            mask == self@.cpu.bus.apu().out.channel_mask,
    {
        self.cpu.bus.apu_ref().channel_mask()
    }

    /// The hash of the whole simulated state. It does not depend on a save format, nor on what is
    /// output.
    pub fn behavior_fingerprint(&self) -> (fingerprint: u64)
        ensures
            fingerprint == xxh3_64_of(self@.stamp()),
    {
        let mut h: Fp = Fp::new();
        self.cpu.fingerprint(&mut h);
        h.u64(self.frame_count);
        assert(h@ + Seq::<u8>::empty() =~= h@);
        assert(h@ =~= self@.stamp());
        h.finish()
    }

    /// The machine as a save state.
    pub fn save_state(&self) -> (bytes: Vec<u8>)
        ensures
            bytes@ == encoded(self@),
    {
        encode(self)
    }

    /// Continues from a save state. A state that is refused leaves the machine as it was.
    ///
    /// The header is checked first, then the bytes are decoded, then the machine they hold is
    /// checked, and at last that it belongs to this ROM. The ROM and the output settings stay;
    /// sound that waits is dropped.
    pub fn load_state(&mut self, bytes: &[u8]) -> (result: Result<(), StateError>)
        requires
            old(self)@.wf(),
        ensures
            loads(old(self)@, bytes@, result),
            result is Ok ==> final(self)@ == machine_in(bytes@).0.continued(old(self)@),
            result is Err ==> final(self)@ == old(self)@,
            final(self)@.wf(),
    {
        let mut decoded: Nes = match decode(bytes) {
            Ok(decoded) => decoded,
            Err(error) => return Err(error),
        };
        match decoded.validate_structure() {
            Ok(_) => {},
            Err(error) => return Err(error),
        }
        let expected: RomId = self.rom_id();
        let found: RomId = decoded.rom_id();
        if expected != found {
            return Err(StateError::RomMismatch { expected, found });
        }
        proof {
            lemma_restored_shape(Tape::at(bytes@.skip(8)));
            lemma_continued(decoded@, self@);
        }
        decoded.cpu.bus.continue_from(&self.cpu.bus);
        *self = decoded;
        Ok(())
    }

    /// Checks that such a machine can exist.
    fn validate_structure(&self) -> (result: Result<(), StateError>)
        ensures
            result is Ok == self@.cpu.bus.valid(),
            result is Err ==> result->Err_0 is Corrupt,
    {
        if self.cpu.bus.is_structurally_valid() {
            Ok(())
        } else {
            Err(StateError::Corrupt)
        }
    }

    /// The hash of the save state.
    pub fn state_hash(&self) -> (hash: u64)
        ensures
            hash == xxh3_64_of(encoded(self@)),
    {
        let bytes: Vec<u8> = self.save_state();
        xxh3_64(bytes.as_slice())
    }

    /// What a debugger shows of the machine.
    pub fn debug_snapshot(&self) -> (snapshot: DebugSnapshot)
        requires
            self@.wf(),
        ensures
            self@.cpu_shown(snapshot),
            self@.ppu_shown(snapshot),
            self@.apu_shown(snapshot),
            self@.mapper_shown(snapshot),
    {
        assert(self.cpu.bus@.apu().core.wf()) by {
            reveal(BusModel::wf);
        }
        let ppu: &Ppu = self.cpu.bus.ppu_ref();
        let apu: &Apu = self.cpu.bus.apu_ref();
        let cartridge: &Cartridge = self.cpu.bus.cartridge_ref();
        let mut oam: Vec<u8> = Vec::new();
        oam.extend_from_slice(ppu.oam.as_slice());
        assert(oam@ =~= ppu.oam@);
        DebugSnapshot {
            cpu_pc: self.cpu.pc,
            cpu_a: self.cpu.a,
            cpu_x: self.cpu.x,
            cpu_y: self.cpu.y,
            cpu_sp: self.cpu.sp,
            cpu_status: self.cpu.status.bits(),
            cpu_cycles: self.cpu.bus.total_cycles(),
            cpu_disassembly: self.cpu.current_disassembly(),
            cpu_jammed: self.cpu.jammed,
            frame_count: self.frame_count,
            ppu_scanline: ppu.scanline,
            ppu_cycle: ppu.cycle,
            ppu_frame: ppu.frame,
            ppu_ctrl: ppu.ctrl,
            ppu_mask: ppu.mask,
            ppu_status: ppu.status,
            ppu_oam_addr: ppu.oam_addr,
            ppu_v: ppu.v,
            ppu_t: ppu.t,
            ppu_fine_x: ppu.fine_x,
            ppu_w: ppu.w,
            palette_ram: ppu.palette,
            oam,
            apu: apu.debug(),
            mapper_id: cartridge.mapper.id(),
            mapper_name: cartridge.mapper.name().to_owned(),
            mapper_regs: cartridge.mapper_debug_rows(),
        }
    }

    /// The picture as it stands. In the middle of a frame its lower part is that of the frame
    /// before.
    pub fn frame_buffer(&self) -> (picture: &FrameBuffer)
        ensures
            picture@ == self@.cpu.bus.ppu().screen,
    {
        self.cpu.bus.ppu_ref().frame_buffer()
    }

    /// Pictures of the pattern tables, in one of eight palettes, and of the nametables.
    pub fn debug_ppu_views(&self, palette_index: u8) -> (views: PpuViews)
        requires
            self@.wf(),
        ensures
            forall|t: int| 0 <= t < 2 ==> self@.cpu.bus.ppu().is_pattern_picture(
                self@.cpu.bus.cart(),
                t * 0x1000,
                (palette_index % 8) * 4,
                #[trigger] views.pattern_tables@[t],
            ),
            forall|t: int| 0 <= t < 4 ==> self@.cpu.bus.ppu().is_nametable_picture(
                self@.cpu.bus.cart(),
                t,
                #[trigger] views.nametables@[t],
            ),
    {
        assert(self.cpu.bus@.ppu().wf()) by {
            reveal(BusModel::wf);
        }
        self.cpu.bus.ppu_ref().build_views(self.cpu.bus.cartridge_ref(), palette_index)
    }

    /// What the header of the ROM says.
    pub fn rom_info(&self) -> (info: &RomInfo)
        ensures
            *info == self@.cpu.bus.cart().info,
    {
        &self.cpu.bus.cartridge_ref().info
    }

    /// The identity of the ROM.
    pub fn rom_id(&self) -> (id: RomId)
        ensures
            id == self@.cpu.bus.cart().rom_id,
    {
        self.cpu.bus.cartridge_ref().rom_id
    }

    /// Runs one instruction and returns its cycles. It leaves the machine in the middle of a
    /// frame, so it is for a machine that is paused.
    pub fn step_instruction(&mut self) -> (cycles: u8)
        requires
            old(self)@.wf(),
        ensures
            (final(self)@.cpu, cycles) == old(self)@.cpu.stepping(),
            final(self)@.frame_count == old(self)@.frame_count,
            old(self)@.cpu.bus.leads_to(final(self)@.cpu.bus),
    {
        self.cpu.step()
    }

    /// One line on the instruction that is next.
    pub fn trace(&self) -> (line: String)
        requires
            self@.wf(),
        ensures
            line@ == self@.cpu.traced(),
    {
        self.cpu.trace()
    }

    /// What is at a CPU address, without reading it.
    pub fn peek(&self, addr: u16) -> (value: u8)
        requires
            self@.wf(),
        ensures
            value == self@.cpu.bus.peeked(addr),
    {
        self.cpu.bus.peek(addr)
    }

    /// What is at a PPU address, without reading it.
    pub fn peek_ppu(&self, addr: u16) -> (value: u8)
        requires
            self@.wf(),
        ensures
            value == self@.cpu.bus.ppu().memory_byte(addr, self@.cpu.bus.cart()),
    {
        assert(self.cpu.bus@.ppu().wf()) by {
            reveal(BusModel::wf);
        }
        self.cpu.bus.ppu_ref().read_memory(addr, self.cpu.bus.cartridge_ref())
    }

    /// Sets the program counter, to start a test program where its menu would lead.
    pub fn override_pc(&mut self, pc: u16)
        ensures
            final(self)@ == (NesModel {
                cpu: CpuModel { pc, ..old(self)@.cpu },
                ..old(self)@
            }),
    {
        self.cpu.pc = pc;
    }

    /// How many frames [`Nes::run_frame`] completed.
    pub fn frame_count(&self) -> (count: u64)
        ensures
            count == self@.frame_count,
    {
        self.frame_count
    }
}

proof fn lemma_frame_steps(c: CpuModel, n: nat)
    requires
        c.completes_at(n),
    ensures
        c.frame_steps() == n,
{
    let m = c.frame_steps();
    assert(c.completes_at(m));
    if m < n {
        assert(c.after(m).frame_done());
    } else if n < m {
        assert(c.after(n).frame_done());
    }
}

} // verus!

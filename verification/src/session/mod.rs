//! What the emulator thread decides: when the machine runs, what it is given, and what is refused.
//!
//! A replay begins with a machine just switched on and holds inputs only. So while one is recorded
//! or played, whatever else would change the machine is refused: restoring a save state, running
//! single instructions, loading another ROM. Pausing is fine, and so is a single frame, which is
//! recorded like any other. A reset takes effect through the input of the next frame.
//!
//! The thread itself, its channels, its clock and the sound device are not here. What is to be done
//! with them is left in the outbox, in order, as [`Effect`]s.

use vstd::prelude::*;

pub mod notice;

pub use notice::{
    Effect, EffectModel, EmuCommand, EmuEvent, EventModel, Notice, Operation, PlaybackSpeed,
    SessionStatus,
};
use notice::effects_of;

use crate::apu::{AudioModel, MixSegment};
use crate::bus::group_leads_to;
use crate::cartridge::{RomId, RomInfo};
use crate::fingerprint::{xxh3_128_of, xxh3_64_of};
use crate::input::FrameInput;
use crate::joypad::Buttons;
use crate::nes::{boot_refusal, loads, Nes, NesModel};
use crate::replay::format::{file_refusal, replay_in};
use crate::replay::{
    playing_refusal, recording_refusal, PlayerModel, RecorderModel, Replay, ReplayError,
    ReplayMismatch, ReplayPlayer, ReplayRecorder, DEFAULT_CHECKPOINT_INTERVAL,
};
use crate::state::{encoded, machine_in};

verus! {

broadcast use group_leads_to;

/// While the machine runs, pictures of the PPU memory are made once in so many frames.
pub const VIEWS_EVERY_N_FRAMES: u32 = 3;

/// The most instructions that are traced at once.
pub const MAX_TRACE_INSTRUCTIONS: u32 = 1_000_000;

/// What is going on besides the game.
#[derive(Debug, Clone)]
pub enum Session {
    Idle,
    Recording(ReplayRecorder),
    Replaying(ReplayPlayer),
}

/// A session as a value.
pub enum SessionModel {
    Idle,
    Recording(RecorderModel),
    Replaying(PlayerModel),
}

impl View for Session {
    type V = SessionModel;

    open spec fn view(&self) -> SessionModel {
        match *self {
            Session::Idle => SessionModel::Idle,
            Session::Recording(recorder) => SessionModel::Recording(recorder@),
            Session::Replaying(player) => SessionModel::Replaying(player@),
        }
    }
}

impl Session {
    pub open spec fn wf(self) -> bool {
        match self {
            Session::Idle => true,
            Session::Recording(recorder) => recorder@.wf(),
            Session::Replaying(player) => player.wf() && player@.valid(),
        }
    }
}

/// What came of a frame.
#[allow(inconsistent_fields)]
#[derive(Debug, Clone, Copy, PartialEq, Eq, Structural)]
pub enum FrameOutcome {
    Ran,
    /// The replay is over, and met all its checkpoints.
    ReplayDone,
    /// The replay missed a checkpoint.
    Mismatch(ReplayMismatch),
    /// The frame could not be recorded.
    RecordFailed(ReplayError),
}

/// The emulator: a machine, or none yet, and what is done with it.
#[derive(Debug, Clone)]
pub struct Emu {
    nes: Option<Nes>,
    /// The file of the ROM, to switch the machine off and on.
    rom: Option<Vec<u8>>,
    session: Session,
    speed: PlaybackSpeed,
    /// The reset button is pressed before the next frame.
    pending_reset: bool,
    p1: Buttons,
    p2: Buttons,
    paused: bool,
    saved_state: Option<Vec<u8>>,
    /// A command changed the machine, so what the window shows is out of date.
    state_changed: bool,
    /// The frames since someone asked.
    fps_frames: u64,
    debug_enabled: bool,
    views_palette: Option<u8>,
    frames_since_views: u32,
    channel_mask: u8,
    outbox: Vec<Effect>,
}

/// An emulator as a value.
pub struct EmuModel {
    pub nes: Option<NesModel>,
    pub rom: Option<Seq<u8>>,
    pub session: SessionModel,
    pub speed: PlaybackSpeed,
    pub pending_reset: bool,
    pub p1: Buttons,
    pub p2: Buttons,
    pub paused: bool,
    pub saved_state: Option<Seq<u8>>,
    pub state_changed: bool,
    pub fps_frames: u64,
    pub debug_enabled: bool,
    pub views_palette: Option<u8>,
    pub frames_since_views: u32,
    pub channel_mask: u8,
    pub outbox: Seq<EffectModel>,
}

pub open spec fn machine_of(nes: Option<Nes>) -> Option<NesModel> {
    match nes {
        Some(nes) => Some(nes@),
        None => None,
    }
}

pub open spec fn bytes_of(bytes: Option<Vec<u8>>) -> Option<Seq<u8>> {
    match bytes {
        Some(bytes) => Some(bytes@),
        None => None,
    }
}

impl View for Emu {
    type V = EmuModel;

    closed spec fn view(&self) -> EmuModel {
        EmuModel {
            nes: machine_of(self.nes),
            rom: bytes_of(self.rom),
            session: self.session@,
            speed: self.speed,
            pending_reset: self.pending_reset,
            p1: self.p1,
            p2: self.p2,
            paused: self.paused,
            saved_state: bytes_of(self.saved_state),
            state_changed: self.state_changed,
            fps_frames: self.fps_frames,
            debug_enabled: self.debug_enabled,
            views_palette: self.views_palette,
            frames_since_views: self.frames_since_views,
            channel_mask: self.channel_mask,
            outbox: effects_of(self.outbox@),
        }
    }
}

impl EmuModel {
    /// No ROM is loaded yet.
    pub open spec fn fresh() -> EmuModel {
        EmuModel {
            nes: None,
            rom: None,
            session: SessionModel::Idle,
            speed: PlaybackSpeed::X1,
            pending_reset: false,
            p1: Buttons { raw: 0 },
            p2: Buttons { raw: 0 },
            paused: false,
            saved_state: None,
            state_changed: false,
            fps_frames: 0,
            debug_enabled: false,
            views_palette: None,
            frames_since_views: 0,
            channel_mask: 0x1F,
            outbox: Seq::empty(),
        }
    }

    /// There is one more thing to do.
    pub open spec fn told(self, effect: EffectModel) -> EmuModel {
        EmuModel { outbox: self.outbox.push(effect), ..self }
    }

    pub open spec fn sent(self, event: EventModel) -> EmuModel {
        self.told(EffectModel::Send(event))
    }

    pub open spec fn failed(self, notice: Notice) -> EmuModel {
        self.sent(EventModel::Error(notice))
    }

    /// A recording or a replay goes on.
    pub open spec fn busy(self) -> bool {
        self.session !is Idle
    }

    /// The operation is refused, as a recording or a replay goes on.
    pub open spec fn refused(self, what: Operation) -> EmuModel {
        if self.busy() {
            self.failed(Notice::Refused { replaying: self.session is Replaying, what })
        } else {
            self
        }
    }

    pub open spec fn status(self) -> SessionStatus {
        match self.session {
            SessionModel::Idle => SessionStatus::Idle,
            SessionModel::Recording(r) => SessionStatus::Recording { frames: r.frames },
            SessionModel::Replaying(p) => SessionStatus::Playing {
                frame: p.frame,
                total: p.replay.total_frames,
                verified: p.verified,
                checkpoints: p.replay.checkpoints.len() as u32,
            },
        }
    }

    /// The window is told what is recorded or replayed.
    pub open spec fn announced(self) -> EmuModel {
        self.sent(EventModel::Session(self.status()))
    }

    /// The machine is paused, or goes on.
    pub open spec fn paused_to(self, paused: bool, notify: bool) -> EmuModel {
        let a = EmuModel { paused, ..self };
        let b = if paused { a } else { a.told(EffectModel::SteadyRate) };
        let c = b.told(EffectModel::PauseSound(paused));
        if notify { c.sent(EventModel::Paused(paused)) } else { c }
    }

    /// A machine with the channels that are heard here.
    pub open spec fn configured(self, m: NesModel) -> NesModel {
        m.with_sound(
            AudioModel { channel_mask: self.channel_mask & 0x1F, ..m.cpu.bus.apu().out },
        )
    }

    /// A machine just switched on with this ROM.
    pub open spec fn booted(self, rom: Seq<u8>) -> NesModel {
        self.configured(NesModel::booted(rom, RomId { hash: xxh3_128_of(rom) }))
    }

    pub open spec fn rom_loaded(self, rom: Seq<u8>) -> EmuModel {
        if self.busy() {
            self.refused(Operation::LoadRom)
        } else {
            match boot_refusal(rom) {
                Some(error) => self.failed(Notice::CannotLoadRom(error)),
                None => {
                    let m = self.booted(rom);
                    EmuModel {
                        nes: Some(m),
                        rom: Some(rom),
                        pending_reset: false,
                        state_changed: true,
                        ..self
                    }.told(EffectModel::FlushSound).sent(
                        EventModel::RomLoaded(m.cpu.bus.cart().info, m.cpu.bus.cart().rom_id),
                    )
                },
            }
        }
    }

    /// A player's buttons. While a replay is played they are ignored.
    pub open spec fn input_set(self, player: u8, buttons: Buttons) -> EmuModel {
        if self.session is Replaying {
            self
        } else if player == 0 {
            EmuModel { p1: buttons, ..self }
        } else if player == 1 {
            EmuModel { p2: buttons, ..self }
        } else {
            self
        }
    }

    /// The reset button is pressed, with the next frame.
    pub open spec fn reset_pressed(self) -> EmuModel {
        if self.session is Replaying {
            self.refused(Operation::Reset)
        } else if self.nes is Some {
            EmuModel { pending_reset: true, ..self }
        } else {
            self
        }
    }

    pub open spec fn mask_set(self, mask: u8) -> EmuModel {
        let a = EmuModel { channel_mask: mask, ..self };
        match self.nes {
            Some(m) => EmuModel { nes: Some(a.configured(m)), ..a },
            None => a,
        }
    }

    pub open spec fn debug_set(self, enabled: bool) -> EmuModel {
        let a = EmuModel { debug_enabled: enabled, ..self };
        if enabled && self.nes is Some { a.told(EffectModel::ShowSnapshot) } else { a }
    }

    /// The pictures of the PPU memory are handed out, if they are wanted.
    pub open spec fn views_published(self) -> EmuModel {
        match self.views_palette {
            Some(palette) => EmuModel { frames_since_views: 0, ..self }.told(
                EffectModel::ShowViews(palette),
            ),
            None => self,
        }
    }

    pub open spec fn views_set(self, palette: Option<u8>) -> EmuModel {
        let a = EmuModel { views_palette: palette, ..self };
        if self.nes is Some { a.views_published() } else { a }
    }

    pub open spec fn state_saved(self) -> EmuModel {
        match self.nes {
            Some(m) => EmuModel { saved_state: Some(encoded(m)), ..self },
            None => self,
        }
    }

    pub open spec fn state_exported(self) -> EmuModel {
        match self.nes {
            Some(m) => self.sent(EventModel::StateExported(encoded(m))),
            None => self,
        }
    }

    /// What comes of restoring the save state in memory.
    pub open spec fn loads_state(self, after: EmuModel) -> bool {
        if self.busy() {
            after == self.refused(Operation::LoadState)
        } else {
            match (self.nes, self.saved_state) {
                (Some(m), Some(bytes)) => {
                    ||| loads(m, bytes, Ok(())) && after == (EmuModel {
                        nes: Some(machine_in(bytes).0.continued(m)),
                        state_changed: true,
                        ..self
                    })
                    ||| exists|error: crate::error::StateError|
                        loads(m, bytes, Err(error)) && after == #[trigger] self.failed(
                            Notice::CannotLoadState(error),
                        )
                },
                _ => after == self,
            }
        }
    }

    pub open spec fn instruction_stepped(self) -> EmuModel {
        if self.busy() {
            self.refused(Operation::StepInstruction)
        } else if !self.paused {
            self.failed(Notice::NotPaused)
        } else {
            match self.nes {
                Some(m) => EmuModel {
                    nes: Some(NesModel { cpu: m.cpu.stepping().0, ..m }),
                    state_changed: true,
                    ..self
                }.told(EffectModel::ShowPicture),
                None => self,
            }
        }
    }

    pub open spec fn traced(self, count: u32) -> EmuModel {
        if self.busy() {
            self.refused(Operation::Trace)
        } else if !self.paused {
            self.failed(Notice::NotPaused)
        } else if self.nes is Some {
            EmuModel { state_changed: true, ..self }.told(
                EffectModel::Trace(
                    if count < MAX_TRACE_INSTRUCTIONS { count } else { MAX_TRACE_INSTRUCTIONS },
                ),
            )
        } else {
            self
        }
    }

    /// The machine is switched off and on, and recorded from there.
    pub open spec fn recording_started(self) -> EmuModel {
        if self.busy() {
            self.refused(Operation::StartRecording)
        } else {
            match self.rom {
                None => self.failed(Notice::NoRomToRecord),
                Some(rom) => match boot_refusal(rom) {
                    Some(error) => self.failed(Notice::CannotRestart(error)),
                    None => {
                        let m = self.booted(rom);
                        let a = self.told(EffectModel::FlushSound);
                        match recording_refusal(m, DEFAULT_CHECKPOINT_INTERVAL) {
                            Some(error) => a.failed(Notice::CannotRecord(error)),
                            None => EmuModel {
                                nes: Some(m),
                                session: SessionModel::Recording(
                                    RecorderModel::begun(
                                        m.cpu.bus.cart().rom_id,
                                        DEFAULT_CHECKPOINT_INTERVAL,
                                        xxh3_64_of(m.stamp()),
                                    ),
                                ),
                                pending_reset: false,
                                state_changed: true,
                                ..a
                            }.announced(),
                        }
                    },
                },
            }
        }
    }

    /// The recording ends, and its file is handed out.
    pub open spec fn recording_stopped(self) -> EmuModel {
        match self.session {
            SessionModel::Recording(r) => {
                let a = EmuModel { session: SessionModel::Idle, ..self };
                let b = match self.nes {
                    None => a,
                    Some(m) => match r.end_refusal(m) {
                        Some(error) => a.failed(Notice::CannotFinish(error)),
                        None => {
                            let replay = r.finished(xxh3_64_of(m.stamp()));
                            a.sent(
                                EventModel::RecordingFinished(replay.file(), replay.total_frames),
                            )
                        },
                    },
                };
                b.announced()
            },
            _ => self,
        }
    }

    /// The machine is switched off and on, and the replay of this file is played.
    pub open spec fn replay_started(self, file: Seq<u8>) -> EmuModel {
        if self.busy() {
            self.refused(Operation::StartReplay)
        } else {
            match self.rom {
                None => self.failed(Notice::NoRomToPlay),
                Some(rom) => match file_refusal(file) {
                    Some(error) => self.failed(Notice::BadReplay(error)),
                    None => match boot_refusal(rom) {
                        Some(error) => self.failed(Notice::CannotRestart(error)),
                        None => {
                            let replay = replay_in(file).0;
                            let m = self.booted(rom);
                            let a = self.told(EffectModel::FlushSound);
                            match playing_refusal(replay, m) {
                                Some(error) => a.failed(Notice::CannotPlay(error)),
                                None => EmuModel {
                                    nes: Some(m.with_output(true)),
                                    session: SessionModel::Replaying(PlayerModel::started(replay)),
                                    pending_reset: false,
                                    state_changed: true,
                                    ..a
                                }.announced(),
                            }
                        },
                    },
                },
            }
        }
    }

    /// Output is on.
    pub open spec fn output_on(self) -> EmuModel {
        match self.nes {
            Some(m) => EmuModel { nes: Some(m.with_output(true)), ..self },
            None => self,
        }
    }

    pub open spec fn replay_stopped(self) -> EmuModel {
        if self.session is Replaying {
            EmuModel { session: SessionModel::Idle, ..self }.output_on().announced()
        } else {
            self
        }
    }

    pub open spec fn speed_set(self, speed: PlaybackSpeed) -> EmuModel {
        EmuModel { speed, ..self }.told(EffectModel::SteadyRate)
    }

    /// The input of the next frame, unless it comes from a replay.
    pub open spec fn next_input(self) -> FrameInput {
        FrameInput { p1: self.p1, p2: self.p2, reset: self.pending_reset }
    }

    /// A frame, with the input of the players, or of the replay.
    pub open spec fn ran_one_frame(self) -> (EmuModel, Option<FrameOutcome>) {
        match self.nes {
            None => (self, None),
            Some(m) => match self.session {
                SessionModel::Replaying(p) => if p.over() {
                    (self, Some(FrameOutcome::ReplayDone))
                } else {
                    let n = m.ran_frame(p.input());
                    let actual = xxh3_64_of(n.stamp());
                    let q = p.played(actual);
                    (
                        EmuModel {
                            nes: Some(n),
                            session: SessionModel::Replaying(q),
                            ..self
                        },
                        Some(
                            match p.mismatch(actual) {
                                Some(e) => FrameOutcome::Mismatch(e),
                                None => if q.over() {
                                    FrameOutcome::ReplayDone
                                } else {
                                    FrameOutcome::Ran
                                },
                            },
                        ),
                    )
                },
                SessionModel::Recording(r) => {
                    let n = m.ran_frame(self.next_input());
                    let a = EmuModel { nes: Some(n), pending_reset: false, ..self };
                    match r.frame_refusal(n) {
                        Some(error) => (a, Some(FrameOutcome::RecordFailed(error))),
                        None => (
                            EmuModel {
                                session: SessionModel::Recording(
                                    r.recorded(self.next_input(), xxh3_64_of(n.stamp())),
                                ),
                                ..a
                            },
                            Some(FrameOutcome::Ran),
                        ),
                    }
                },
                SessionModel::Idle => (
                    EmuModel {
                        nes: Some(m.ran_frame(self.next_input())),
                        pending_reset: false,
                        ..self
                    },
                    Some(FrameOutcome::Ran),
                ),
            },
        }
    }

    pub open spec fn picture_shown(self, wanted: bool) -> EmuModel {
        if wanted && self.nes is Some { self.told(EffectModel::ShowPicture) } else { self }
    }

    /// The replay is over: output is on and the machine is paused, so that the last picture stays.
    pub open spec fn replay_ended(self) -> EmuModel {
        self.output_on().paused_to(true, true)
    }

    /// What follows a frame, and whether the session goes on.
    pub open spec fn frame_finished(self, outcome: FrameOutcome, show: bool) -> (EmuModel, bool) {
        let a = self.picture_shown(show);
        let idle = EmuModel { session: SessionModel::Idle, ..a };
        match outcome {
            FrameOutcome::Ran => (if a.busy() { a.announced() } else { a }, true),
            FrameOutcome::ReplayDone => (
                match a.session {
                    SessionModel::Replaying(p) => idle.sent(
                        EventModel::Session(
                            SessionStatus::Finished {
                                total: p.replay.total_frames,
                                checkpoints: p.verified,
                            },
                        ),
                    ),
                    _ => idle,
                }.replay_ended(),
                false,
            ),
            FrameOutcome::Mismatch(m) => (
                idle.sent(EventModel::Session(SessionStatus::Mismatch(m))).replay_ended(),
                false,
            ),
            FrameOutcome::RecordFailed(error) => (
                idle.failed(Notice::RecordingStopped(error)).announced(),
                false,
            ),
        }
    }

    pub open spec fn frame_stepped(self) -> EmuModel {
        if !self.paused {
            self.failed(Notice::NotPaused)
        } else {
            match self.ran_one_frame() {
                (a, Some(outcome)) => EmuModel {
                    state_changed: true,
                    ..a.frame_finished(outcome, true).0
                },
                (a, None) => a,
            }
        }
    }

    /// The sound of a frame is played, unless a replay is played faster than the machine runs.
    pub open spec fn sounded(self) -> EmuModel {
        if self.nes is None {
            self
        } else if self.session is Replaying && self.speed != PlaybackSpeed::X1 {
            self.told(EffectModel::DropSound)
        } else {
            self.told(EffectModel::PlaySound)
        }
    }

    /// The window is told of the state of the machine.
    pub open spec fn published(self, immediate: bool) -> EmuModel {
        match self.nes {
            None => self,
            Some(m) => {
                let a = if self.debug_enabled {
                    self.told(EffectModel::ShowSnapshot)
                } else {
                    self
                };
                let since = if a.frames_since_views < u32::MAX {
                    (a.frames_since_views + 1) as u32
                } else {
                    u32::MAX
                };
                let b = EmuModel { frames_since_views: since, ..a };
                let c = if immediate || since >= VIEWS_EVERY_N_FRAMES {
                    b.views_published()
                } else {
                    b
                };
                c.sent(EventModel::FrameAdvanced(m.frame_count))
            },
        }
    }

    pub open spec fn counted(self, frames: u64) -> EmuModel {
        EmuModel { fps_frames: self.fps_frames.wrapping_add(frames), ..self }
    }

    /// A frame as the clock calls for it, and whether the session goes on.
    pub open spec fn ticked(self) -> (EmuModel, bool) {
        match self.ran_one_frame() {
            (a, None) => (a, true),
            (a, Some(outcome)) => {
                let (b, on) = a.sounded().frame_finished(outcome, true);
                (b.counted(1).published(false), on)
            },
        }
    }

    /// A frame of a replay that is played as fast as possible: only the first of many has output.
    /// `None` where there is no machine, else whether the session goes on.
    pub open spec fn rushed(self, first: bool) -> (EmuModel, Option<bool>) {
        let a = match self.nes {
            Some(m) => EmuModel { nes: Some(m.with_output(first)), ..self },
            None => self,
        };
        match a.ran_one_frame() {
            (b, None) => (b, None),
            (b, Some(outcome)) => {
                let (c, on) = b.frame_finished(outcome, first);
                (c, Some(on))
            },
        }
    }

    /// What follows so many frames played as fast as possible.
    pub open spec fn rush_ended(self, ran: u64) -> EmuModel {
        let a = if self.nes is Some {
            self.output_on().told(EffectModel::DropSound)
        } else {
            self
        };
        a.counted(ran).published(false)
    }

    /// What follows the commands of one round.
    pub open spec fn settled(self) -> EmuModel {
        let a = if self.state_changed { self.published(true) } else { self };
        if a.paused && a.nes is Some { a.told(EffectModel::DropSound) } else { a }
    }

    /// What comes of a command.
    pub open spec fn handles(self, cmd: EmuCommand, after: EmuModel) -> bool {
        match cmd {
            EmuCommand::LoadRom(bytes) => after == self.rom_loaded(bytes@),
            EmuCommand::SetInput(player, buttons) => after == self.input_set(player, buttons),
            EmuCommand::Pause => after == self.paused_to(true, false),
            EmuCommand::Resume => after == self.paused_to(false, false),
            EmuCommand::SaveState => after == self.state_saved(),
            EmuCommand::LoadState => self.loads_state(after),
            EmuCommand::Reset => after == self.reset_pressed(),
            EmuCommand::StartRecording => after == self.recording_started(),
            EmuCommand::StopRecording => after == self.recording_stopped(),
            EmuCommand::StartReplay(bytes) => after == self.replay_started(bytes@),
            EmuCommand::StopReplay => after == self.replay_stopped(),
            EmuCommand::SetPlaybackSpeed(speed) => after == self.speed_set(speed),
            EmuCommand::ExportState => after == self.state_exported(),
            EmuCommand::SetDebugEnabled(enabled) => after == self.debug_set(enabled),
            EmuCommand::SetDebugViews(palette) => after == self.views_set(palette),
            EmuCommand::StepInstruction => after == self.instruction_stepped(),
            EmuCommand::StepFrame => after == self.frame_stepped(),
            EmuCommand::SetAudioChannelMask(mask) => after == self.mask_set(mask),
            EmuCommand::TraceToFile { count } => after == self.traced(count),
            EmuCommand::Quit => after == self,
        }
    }
}

impl Emu {
    /// Machine and session can go on.
    pub closed spec fn wf(self) -> bool {
        &&& self.nes matches Some(nes) ==> nes@.wf()
        &&& self.session.wf()
    }

    /// No ROM is loaded yet.
    pub fn new() -> (emu: Self)
        ensures
            emu@ == EmuModel::fresh(),
            emu.wf(),
    {
        let emu: Emu = Emu {
            nes: None,
            rom: None,
            session: Session::Idle,
            speed: PlaybackSpeed::X1,
            pending_reset: false,
            p1: Buttons::empty(),
            p2: Buttons::empty(),
            paused: false,
            saved_state: None,
            state_changed: false,
            fps_frames: 0,
            debug_enabled: false,
            views_palette: None,
            frames_since_views: 0,
            channel_mask: 0x1F,
            outbox: Vec::new(),
        };
        assert(emu@.outbox =~= Seq::empty());
        emu
    }

    fn tell(&mut self, effect: Effect)
        ensures
            final(self)@ == old(self)@.told(effect@),
            final(self).wf() == old(self).wf(),
            *final(self) == (Emu { outbox: final(self).outbox, ..*old(self) }),
    {
        self.outbox.push(effect);
        assert(self@.outbox =~= old(self)@.outbox.push(effect@));
    }

    fn send(&mut self, event: EmuEvent)
        ensures
            final(self)@ == old(self)@.sent(event@),
            final(self).wf() == old(self).wf(),
            *final(self) == (Emu { outbox: final(self).outbox, ..*old(self) }),
    {
        self.tell(Effect::Send(event));
    }

    fn error(&mut self, notice: Notice)
        ensures
            final(self)@ == old(self)@.failed(notice),
            final(self).wf() == old(self).wf(),
            *final(self) == (Emu { outbox: final(self).outbox, ..*old(self) }),
    {
        self.send(EmuEvent::Error(notice));
    }

    /// Takes what is to be done, in order.
    pub fn take_effects(&mut self) -> (effects: Vec<Effect>)
        ensures
            effects_of(effects@) == old(self)@.outbox,
            final(self)@ == (EmuModel { outbox: Seq::empty(), ..old(self)@ }),
            final(self).wf() == old(self).wf(),
    {
        let mut effects: Vec<Effect> = Vec::new();
        std::mem::swap(&mut effects, &mut self.outbox);
        assert(self@.outbox =~= Seq::empty());
        effects
    }

    /// A recording or a replay goes on.
    pub fn busy(&self) -> (busy: bool)
        ensures
            busy == self@.busy(),
    {
        match self.session {
            Session::Idle => false,
            _ => true,
        }
    }

    fn replaying(&self) -> (yes: bool)
        ensures
            yes == (self@.session is Replaying),
    {
        match self.session {
            Session::Replaying(_) => true,
            _ => false,
        }
    }

    fn refuse(&mut self, what: Operation)
        ensures
            final(self)@ == old(self)@.refused(what),
            final(self).wf() == old(self).wf(),
    {
        if self.busy() {
            let replaying: bool = self.replaying();
            self.error(Notice::Refused { replaying, what });
        }
    }

    pub fn session_status(&self) -> (status: SessionStatus)
        requires
            self.wf(),
        ensures
            status == self@.status(),
    {
        match &self.session {
            Session::Idle => SessionStatus::Idle,
            Session::Recording(recorder) => SessionStatus::Recording { frames: recorder.frames() },
            Session::Replaying(player) => SessionStatus::Playing {
                frame: player.frame(),
                total: player.total_frames(),
                verified: player.verified_checkpoints(),
                checkpoints: player.checkpoint_count(),
            },
        }
    }

    fn send_session(&mut self)
        requires
            old(self).wf(),
        ensures
            final(self)@ == old(self)@.announced(),
            final(self).wf(),
    {
        let status: SessionStatus = self.session_status();
        self.send(EmuEvent::Session(status));
    }

    fn set_paused(&mut self, paused: bool, notify: bool)
        ensures
            final(self)@ == old(self)@.paused_to(paused, notify),
            final(self).wf() == old(self).wf(),
    {
        self.paused = paused;
        if !paused {
            self.tell(Effect::SteadyRate);
        }
        self.tell(Effect::PauseSound(paused));
        if notify {
            self.send(EmuEvent::Paused(paused));
        }
    }
}

impl Emu {
    /// Sets up a machine that was just switched on.
    fn configure(&mut self, nes: &mut Nes)
        requires
            old(nes)@.wf(),
        ensures
            final(nes)@ == old(self)@.configured(old(nes)@),
            final(nes)@.wf(),
            final(self)@ == old(self)@.told(EffectModel::FlushSound),
            final(self).wf() == old(self).wf(),
            *final(self) == (Emu { outbox: final(self).outbox, ..*old(self) }),
    {
        nes.set_audio_channel_mask(self.channel_mask);
        self.tell(Effect::FlushSound);
    }

    fn load_rom(&mut self, rom: Vec<u8>)
        requires
            old(self).wf(),
        ensures
            final(self)@ == old(self)@.rom_loaded(rom@),
            final(self).wf(),
    {
        if self.busy() {
            self.refuse(Operation::LoadRom);
            return ;
        }
        match Nes::from_rom(rom.as_slice()) {
            Err(error) => self.error(Notice::CannotLoadRom(error)),
            Ok(mut nes) => {
                self.configure(&mut nes);
                let info: RomInfo = *nes.rom_info();
                let id: RomId = nes.rom_id();
                self.nes = Some(nes);
                self.rom = Some(rom);
                self.pending_reset = false;
                self.state_changed = true;
                self.send(EmuEvent::RomLoaded(info, id));
            },
        }
    }

    fn set_input(&mut self, player: u8, buttons: Buttons)
        requires
            old(self).wf(),
        ensures
            final(self)@ == old(self)@.input_set(player, buttons),
            final(self).wf(),
    {
        if !self.replaying() {
            if player == 0 {
                self.p1 = buttons;
            } else if player == 1 {
                self.p2 = buttons;
            }
        }
    }

    fn press_reset(&mut self)
        requires
            old(self).wf(),
        ensures
            final(self)@ == old(self)@.reset_pressed(),
            final(self).wf(),
    {
        if self.replaying() {
            self.refuse(Operation::Reset);
        } else if self.nes.is_some() {
            self.pending_reset = true;
        }
    }

    fn set_channel_mask(&mut self, mask: u8)
        requires
            old(self).wf(),
        ensures
            final(self)@ == old(self)@.mask_set(mask),
            final(self).wf(),
    {
        self.channel_mask = mask;
        if let Some(nes) = &mut self.nes {
            nes.set_audio_channel_mask(mask);
        }
    }

    fn set_debug_enabled(&mut self, enabled: bool)
        requires
            old(self).wf(),
        ensures
            final(self)@ == old(self)@.debug_set(enabled),
            final(self).wf(),
    {
        self.debug_enabled = enabled;
        if enabled && self.nes.is_some() {
            self.tell(Effect::ShowSnapshot);
        }
    }

    fn publish_views(&mut self)
        ensures
            final(self)@ == old(self)@.views_published(),
            final(self).wf() == old(self).wf(),
    {
        if let Some(palette) = self.views_palette {
            self.frames_since_views = 0;
            self.tell(Effect::ShowViews(palette));
        }
    }

    fn set_debug_views(&mut self, palette: Option<u8>)
        requires
            old(self).wf(),
        ensures
            final(self)@ == old(self)@.views_set(palette),
            final(self).wf(),
    {
        self.views_palette = palette;
        if self.nes.is_some() {
            self.publish_views();
        }
    }

    fn save_state(&mut self)
        requires
            old(self).wf(),
        ensures
            final(self)@ == old(self)@.state_saved(),
            final(self).wf(),
    {
        if let Some(nes) = &self.nes {
            let bytes: Vec<u8> = nes.save_state();
            self.saved_state = Some(bytes);
        }
    }

    fn export_state(&mut self)
        requires
            old(self).wf(),
        ensures
            final(self)@ == old(self)@.state_exported(),
            final(self).wf(),
    {
        if let Some(nes) = &self.nes {
            let bytes: Vec<u8> = nes.save_state();
            self.send(EmuEvent::StateExported(bytes));
        }
    }

    fn load_state(&mut self)
        requires
            old(self).wf(),
        ensures
            old(self)@.loads_state(final(self)@),
            final(self).wf(),
    {
        if self.busy() {
            self.refuse(Operation::LoadState);
            return ;
        }
        let mut refusal: Option<crate::error::StateError> = None;
        let mut restored: bool = false;
        if let Some(nes) = &mut self.nes {
            if let Some(bytes) = &self.saved_state {
                match nes.load_state(bytes.as_slice()) {
                    Ok(_) => restored = true,
                    Err(error) => refusal = Some(error),
                }
            }
        }
        if restored {
            self.state_changed = true;
        }
        if let Some(error) = refusal {
            self.error(Notice::CannotLoadState(error));
        }
    }

    fn step_instruction(&mut self)
        requires
            old(self).wf(),
        ensures
            final(self)@ == old(self)@.instruction_stepped(),
            final(self).wf(),
    {
        if self.busy() {
            self.refuse(Operation::StepInstruction);
        } else if !self.paused {
            self.error(Notice::NotPaused);
        } else if let Some(nes) = &mut self.nes {
            let _: u8 = nes.step_instruction();
            self.state_changed = true;
            self.tell(Effect::ShowPicture);
        }
    }

    fn start_trace(&mut self, count: u32)
        requires
            old(self).wf(),
        ensures
            final(self)@ == old(self)@.traced(count),
            final(self).wf(),
    {
        if self.busy() {
            self.refuse(Operation::Trace);
        } else if !self.paused {
            self.error(Notice::NotPaused);
        } else if self.nes.is_some() {
            self.state_changed = true;
            let most: u32 = if count < MAX_TRACE_INSTRUCTIONS {
                count
            } else {
                MAX_TRACE_INSTRUCTIONS
            };
            self.tell(Effect::Trace(most));
        }
    }

    /// The line on the instruction that is next, which then runs. `None` without a machine, and
    /// while a recording or a replay goes on.
    pub fn trace_line(&mut self) -> (line: Option<String>)
        requires
            old(self).wf(),
        ensures
            final(self).wf(),
            match old(self)@.nes {
                Some(m) if !old(self)@.busy() => line is Some && line->0@ == m.cpu.traced()
                    && final(self)@ == (EmuModel {
                    nes: Some(NesModel { cpu: m.cpu.stepping().0, ..m }),
                    ..old(self)@
                }),
                _ => line is None && final(self)@ == old(self)@,
            },
    {
        if self.busy() {
            return None;
        }
        if let Some(nes) = &mut self.nes {
            let line: String = nes.trace();
            let _: u8 = nes.step_instruction();
            Some(line)
        } else {
            None
        }
    }
}

impl Emu {
    fn start_recording(&mut self)
        requires
            old(self).wf(),
        ensures
            final(self)@ == old(self)@.recording_started(),
            final(self).wf(),
    {
        if self.busy() {
            self.refuse(Operation::StartRecording);
            return ;
        }
        let booted: Result<Nes, crate::error::RomError> = match &self.rom {
            Some(rom) => Nes::from_rom(rom.as_slice()),
            None => {
                self.error(Notice::NoRomToRecord);
                return ;
            },
        };
        let mut fresh: Nes = match booted {
            Ok(nes) => nes,
            Err(error) => {
                self.error(Notice::CannotRestart(error));
                return ;
            },
        };
        self.configure(&mut fresh);
        match ReplayRecorder::new(&fresh, DEFAULT_CHECKPOINT_INTERVAL) {
            Ok(recorder) => {
                self.nes = Some(fresh);
                self.session = Session::Recording(recorder);
                self.pending_reset = false;
                self.state_changed = true;
                self.send_session();
            },
            Err(error) => self.error(Notice::CannotRecord(error)),
        }
    }

    fn stop_recording(&mut self)
        requires
            old(self).wf(),
        ensures
            final(self)@ == old(self)@.recording_stopped(),
            final(self).wf(),
    {
        let mut session: Session = Session::Idle;
        std::mem::swap(&mut session, &mut self.session);
        match session {
            Session::Recording(recorder) => {
                let ghost r = recorder@;
                if let Some(nes) = &self.nes {
                    match recorder.finish(nes) {
                        Ok(replay) => {
                            let frames: u32 = replay.total_frames;
                            let bytes: Vec<u8> = replay.encode();
                            self.send(EmuEvent::RecordingFinished { bytes, frames });
                        },
                        Err(error) => self.error(Notice::CannotFinish(error)),
                    }
                }
                self.send_session();
            },
            other => self.session = other,
        }
    }

    fn start_replay(&mut self, file: Vec<u8>)
        requires
            old(self).wf(),
        ensures
            final(self)@ == old(self)@.replay_started(file@),
            final(self).wf(),
    {
        if self.busy() {
            self.refuse(Operation::StartReplay);
            return ;
        }
        if self.rom.is_none() {
            self.error(Notice::NoRomToPlay);
            return ;
        }
        let replay: Replay = match Replay::decode(file.as_slice()) {
            Ok(replay) => replay,
            Err(error) => {
                self.error(Notice::BadReplay(error));
                return ;
            },
        };
        let booted: Result<Nes, crate::error::RomError> = match &self.rom {
            Some(rom) => Nes::from_rom(rom.as_slice()),
            None => return ,
        };
        let mut fresh: Nes = match booted {
            Ok(nes) => nes,
            Err(error) => {
                self.error(Notice::CannotRestart(error));
                return ;
            },
        };
        self.configure(&mut fresh);
        match ReplayPlayer::new(replay, &fresh) {
            Ok(player) => {
                fresh.set_output_enabled(true);
                self.nes = Some(fresh);
                self.session = Session::Replaying(player);
                self.pending_reset = false;
                self.state_changed = true;
                self.send_session();
            },
            Err(error) => self.error(Notice::CannotPlay(error)),
        }
    }

    fn switch_output_on(&mut self)
        requires
            old(self).wf(),
        ensures
            final(self)@ == old(self)@.output_on(),
            final(self).wf(),
    {
        if let Some(nes) = &mut self.nes {
            nes.set_output_enabled(true);
        }
    }

    fn stop_replay(&mut self)
        requires
            old(self).wf(),
        ensures
            final(self)@ == old(self)@.replay_stopped(),
            final(self).wf(),
    {
        if self.replaying() {
            self.session = Session::Idle;
            self.switch_output_on();
            self.send_session();
        }
    }

    fn set_playback_speed(&mut self, speed: PlaybackSpeed)
        requires
            old(self).wf(),
        ensures
            final(self)@ == old(self)@.speed_set(speed),
            final(self).wf(),
    {
        self.speed = speed;
        self.tell(Effect::SteadyRate);
    }

    /// Runs a frame. Every frame comes by here, so every frame of a recording is recorded.
    fn run_one_frame(&mut self) -> (outcome: Option<FrameOutcome>)
        requires
            old(self).wf(),
        ensures
            (final(self)@, outcome) == old(self)@.ran_one_frame(),
            final(self).wf(),
    {
        let input: FrameInput = FrameInput {
            p1: self.p1,
            p2: self.p2,
            reset: self.pending_reset,
        };
        match &mut self.nes {
            None => None,
            Some(nes) => match &mut self.session {
                Session::Replaying(player) => match player.step(nes) {
                    Ok(ran) => if ran && !player.is_finished() {
                        Some(FrameOutcome::Ran)
                    } else {
                        Some(FrameOutcome::ReplayDone)
                    },
                    Err(mismatch) => Some(FrameOutcome::Mismatch(mismatch)),
                },
                Session::Recording(recorder) => {
                    self.pending_reset = false;
                    let _ = nes.run_frame(input);
                    match recorder.record_frame(input, nes) {
                        Ok(_) => Some(FrameOutcome::Ran),
                        Err(error) => Some(FrameOutcome::RecordFailed(error)),
                    }
                },
                Session::Idle => {
                    self.pending_reset = false;
                    let _ = nes.run_frame(input);
                    Some(FrameOutcome::Ran)
                },
            },
        }
    }

    fn end_replay_and_pause(&mut self)
        requires
            old(self).wf(),
        ensures
            final(self)@ == old(self)@.replay_ended(),
            final(self).wf(),
    {
        self.switch_output_on();
        self.set_paused(true, true);
    }

    /// Deals with what came of a frame. Returns whether the session goes on.
    fn finish_frame(&mut self, outcome: FrameOutcome, show: bool) -> (on: bool)
        requires
            old(self).wf(),
        ensures
            (final(self)@, on) == old(self)@.frame_finished(outcome, show),
            final(self).wf(),
    {
        if show && self.nes.is_some() {
            self.tell(Effect::ShowPicture);
        }
        match outcome {
            FrameOutcome::Ran => {
                if self.busy() {
                    self.send_session();
                }
                true
            },
            FrameOutcome::ReplayDone => {
                let mut status: Option<SessionStatus> = None;
                if let Session::Replaying(player) = &self.session {
                    status = Some(
                        SessionStatus::Finished {
                            total: player.total_frames(),
                            checkpoints: player.verified_checkpoints(),
                        },
                    );
                }
                self.session = Session::Idle;
                if let Some(status) = status {
                    self.send(EmuEvent::Session(status));
                }
                self.end_replay_and_pause();
                false
            },
            FrameOutcome::Mismatch(mismatch) => {
                self.session = Session::Idle;
                self.send(EmuEvent::Session(SessionStatus::Mismatch(mismatch)));
                self.end_replay_and_pause();
                false
            },
            FrameOutcome::RecordFailed(error) => {
                self.session = Session::Idle;
                self.error(Notice::RecordingStopped(error));
                self.send_session();
                false
            },
        }
    }

    fn step_frame(&mut self)
        requires
            old(self).wf(),
        ensures
            final(self)@ == old(self)@.frame_stepped(),
            final(self).wf(),
    {
        if !self.paused {
            self.error(Notice::NotPaused);
        } else if let Some(outcome) = self.run_one_frame() {
            let _: bool = self.finish_frame(outcome, true);
            self.state_changed = true;
        }
    }

    /// Does what a command asks. Returns whether it asks to end.
    pub fn handle(&mut self, cmd: EmuCommand) -> (quit: bool)
        requires
            old(self).wf(),
        ensures
            old(self)@.handles(cmd, final(self)@),
            final(self).wf(),
            quit == (cmd is Quit),
    {
        match cmd {
            EmuCommand::LoadRom(rom) => self.load_rom(rom),
            EmuCommand::SetInput(player, buttons) => self.set_input(player, buttons),
            EmuCommand::Pause => self.set_paused(true, false),
            EmuCommand::Resume => self.set_paused(false, false),
            EmuCommand::SaveState => self.save_state(),
            EmuCommand::LoadState => self.load_state(),
            EmuCommand::Reset => self.press_reset(),
            EmuCommand::StartRecording => self.start_recording(),
            EmuCommand::StopRecording => self.stop_recording(),
            EmuCommand::StartReplay(file) => self.start_replay(file),
            EmuCommand::StopReplay => self.stop_replay(),
            EmuCommand::SetPlaybackSpeed(speed) => self.set_playback_speed(speed),
            EmuCommand::ExportState => self.export_state(),
            EmuCommand::SetDebugEnabled(enabled) => self.set_debug_enabled(enabled),
            EmuCommand::SetDebugViews(palette) => self.set_debug_views(palette),
            EmuCommand::StepInstruction => self.step_instruction(),
            EmuCommand::StepFrame => self.step_frame(),
            EmuCommand::SetAudioChannelMask(mask) => self.set_channel_mask(mask),
            EmuCommand::TraceToFile { count } => self.start_trace(count),
            EmuCommand::Quit => {
                return true;
            },
        }
        false
    }

    fn audio_after_frame(&mut self)
        requires
            old(self).wf(),
        ensures
            final(self)@ == old(self)@.sounded(),
            final(self).wf(),
    {
        if self.nes.is_some() {
            if self.replaying() && self.speed != PlaybackSpeed::X1 {
                self.tell(Effect::DropSound);
            } else {
                self.tell(Effect::PlaySound);
            }
        }
    }

    fn publish(&mut self, immediate: bool)
        requires
            old(self).wf(),
        ensures
            final(self)@ == old(self)@.published(immediate),
            final(self).wf(),
    {
        let count: u64 = match &self.nes {
            Some(nes) => nes.frame_count(),
            None => return ,
        };
        if self.debug_enabled {
            self.tell(Effect::ShowSnapshot);
        }
        if self.frames_since_views < u32::MAX {
            self.frames_since_views = self.frames_since_views + 1;
        }
        if immediate || self.frames_since_views >= VIEWS_EVERY_N_FRAMES {
            self.publish_views();
        }
        self.send(EmuEvent::FrameAdvanced(count));
    }

    /// Runs a frame, as the clock calls for it. Returns whether the session goes on.
    pub fn tick_frame(&mut self) -> (on: bool)
        requires
            old(self).wf(),
        ensures
            (final(self)@, on) == old(self)@.ticked(),
            final(self).wf(),
    {
        match self.run_one_frame() {
            None => true,
            Some(outcome) => {
                self.audio_after_frame();
                let on: bool = self.finish_frame(outcome, true);
                self.fps_frames = self.fps_frames.wrapping_add(1);
                self.publish(false);
                on
            },
        }
    }

    /// Runs a frame of a replay that is played as fast as possible. Only the first of many has
    /// output, which does not matter to what is checked. Returns whether the session goes on;
    /// `None` without a machine.
    pub fn rush_frame(&mut self, first: bool) -> (on: Option<bool>)
        requires
            old(self).wf(),
        ensures
            (final(self)@, on) == old(self)@.rushed(first),
            final(self).wf(),
    {
        if let Some(nes) = &mut self.nes {
            nes.set_output_enabled(first);
        }
        match self.run_one_frame() {
            None => None,
            Some(outcome) => Some(self.finish_frame(outcome, first)),
        }
    }

    /// Ends so many frames played as fast as possible.
    pub fn end_rush(&mut self, ran: u64)
        requires
            old(self).wf(),
        ensures
            final(self)@ == old(self)@.rush_ended(ran),
            final(self).wf(),
    {
        if self.nes.is_some() {
            self.switch_output_on();
            self.tell(Effect::DropSound);
        }
        self.fps_frames = self.fps_frames.wrapping_add(ran);
        self.publish(false);
    }

    /// Before the commands of a round are handled.
    pub fn begin_round(&mut self)
        requires
            old(self).wf(),
        ensures
            final(self)@ == (EmuModel { state_changed: false, ..old(self)@ }),
            final(self).wf(),
    {
        self.state_changed = false;
    }

    /// After the commands of a round were handled: the window is told if something changed, and
    /// what a paused machine recorded is not played.
    pub fn settle(&mut self)
        requires
            old(self).wf(),
        ensures
            final(self)@ == old(self)@.settled(),
            final(self).wf(),
    {
        if self.state_changed {
            self.publish(true);
        }
        if self.paused && self.nes.is_some() {
            self.tell(Effect::DropSound);
        }
    }

    /// The time for a frame, where the machine needs `base` for one.
    pub fn frame_period(&self, base: u64) -> (period: u64)
        ensures
            period == if self@.session is Replaying && self@.speed == PlaybackSpeed::X2 {
                base / 2
            } else {
                base
            },
    {
        if self.replaying() && self.speed == PlaybackSpeed::X2 {
            base / 2
        } else {
            base
        }
    }

    /// A replay is played as fast as possible.
    pub fn max_speed_playback(&self) -> (yes: bool)
        ensures
            yes == (self@.session is Replaying && self@.speed == PlaybackSpeed::Max),
    {
        self.replaying() && self.speed == PlaybackSpeed::Max
    }

    /// The machine runs: there is one, and it is not paused.
    pub fn running(&self) -> (yes: bool)
        ensures
            yes == (!self@.paused && self@.nes is Some),
    {
        !self.paused && self.nes.is_some()
    }

    pub fn paused(&self) -> (paused: bool)
        ensures
            paused == self@.paused,
    {
        self.paused
    }

    /// The machine, if there is one.
    pub fn machine(&self) -> (nes: Option<&Nes>)
        ensures
            match nes {
                Some(nes) => self@.nes == Some(nes@),
                None => self@.nes is None,
            },
    {
        match &self.nes {
            Some(nes) => Some(nes),
            None => None,
        }
    }

    /// Moves the samples of the machine that wait to the end of `out`.
    pub fn take_sound(&mut self, out: &mut Vec<MixSegment>)
        requires
            old(self).wf(),
        ensures
            final(self).wf(),
            match old(self)@.nes {
                Some(m) => final(out)@ == old(out)@ + m.cpu.bus.apu().out.waiting() && final(self)@
                    == (EmuModel {
                    nes: Some(m.with_sound(m.cpu.bus.apu().out.drained())),
                    ..old(self)@
                }),
                None => final(out)@ == old(out)@ && final(self)@ == old(self)@,
            },
    {
        if let Some(nes) = &mut self.nes {
            nes.drain_audio(out);
        }
    }

    /// Sets the sample rate of the machine, in microhertz.
    pub fn set_sample_rate(&mut self, rate: u64)
        requires
            old(self).wf(),
        ensures
            final(self).wf(),
            match old(self)@.nes {
                Some(m) => final(self)@ == (EmuModel {
                    nes: Some(m.with_sound(m.cpu.bus.apu().out.retuned(rate))),
                    ..old(self)@
                }),
                None => final(self)@ == old(self)@,
            },
    {
        if let Some(nes) = &mut self.nes {
            nes.set_audio_sample_rate(rate);
        }
    }

    /// The frames since this was asked last.
    pub fn take_fps_frames(&mut self) -> (frames: u64)
        requires
            old(self).wf(),
        ensures
            frames == old(self)@.fps_frames,
            final(self)@ == (EmuModel { fps_frames: 0, ..old(self)@ }),
            final(self).wf(),
    {
        let frames: u64 = self.fps_frames;
        self.fps_frames = 0;
        frames
    }
}

} // verus!

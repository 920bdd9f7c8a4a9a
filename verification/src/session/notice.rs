//! What the emulator thread is asked, and what it answers.

use vstd::prelude::*;
use vstd::string::*;

use crate::cartridge::{RomId, RomInfo};
use crate::error::{RomError, StateError};
use crate::joypad::Buttons;
use crate::replay::{ReplayError, ReplayMismatch};

verus! {

/// How fast a replay is played.
#[derive(Debug, Clone, Copy, PartialEq, Eq, Structural)]
pub enum PlaybackSpeed {
    /// At the speed of the machine, with sound.
    X1,
    /// At twice the speed, without sound.
    X2,
    /// As fast as possible, without sound. Only some pictures are shown.
    Max,
}

/// What the window asks of the emulator thread.
#[derive(Debug, Clone)]
pub enum EmuCommand {
    LoadRom(Vec<u8>),
    /// The buttons of a player, 0 or 1.
    SetInput(u8, Buttons),
    Pause,
    Resume,
    /// Keeps a save state in memory.
    SaveState,
    /// Restores the save state in memory.
    LoadState,
    /// Presses the reset button before the next frame.
    Reset,
    /// Switches the machine off and on, and records from there.
    StartRecording,
    StopRecording,
    /// Switches the machine off and on, and plays the replay of this file.
    StartReplay(Vec<u8>),
    StopReplay,
    SetPlaybackSpeed(PlaybackSpeed),
    /// Hands out a save state.
    ExportState,
    /// Whether snapshots are wanted.
    SetDebugEnabled(bool),
    /// Whether pictures of the PPU memory are wanted, and in which palette.
    SetDebugViews(Option<u8>),
    StepInstruction,
    StepFrame,
    /// The channels that are heard.
    SetAudioChannelMask(u8),
    /// Runs so many instructions and writes a line on each.
    TraceToFile { count: u32 },
    Quit,
}

/// A recording, or a replay, or neither.
#[allow(inconsistent_fields)]
#[derive(Debug, Clone, Copy, PartialEq, Eq, Structural)]
pub enum SessionStatus {
    Idle,
    Recording { frames: u32 },
    Playing { frame: u32, total: u32, verified: u32, checkpoints: u32 },
    /// A replay is over, and met all its checkpoints.
    Finished { total: u32, checkpoints: u32 },
    /// A replay missed a checkpoint.
    Mismatch(ReplayMismatch),
}

/// What is refused while a recording or a replay goes on.
#[derive(Debug, Clone, Copy, PartialEq, Eq, Structural)]
pub enum Operation {
    LoadRom,
    LoadState,
    StepInstruction,
    Trace,
    StartRecording,
    StartReplay,
    Reset,
}

impl Operation {
    pub open spec fn text(self) -> Seq<char> {
        match self {
            Operation::LoadRom => "載入別的 ROM"@,
            Operation::LoadState => "讀取存檔"@,
            Operation::StepInstruction => "單步執行指令"@,
            Operation::Trace => "trace（單步執行指令）"@,
            Operation::StartRecording => "開始新的錄製"@,
            Operation::StartReplay => "開始播放另一份 replay"@,
            Operation::Reset => "按 reset（reset 也是 replay 輸入的一部分）"@,
        }
    }

    pub fn name(&self) -> (name: &'static str)
        ensures
            name@ == self.text(),
    {
        match self {
            Operation::LoadRom => "載入別的 ROM",
            Operation::LoadState => "讀取存檔",
            Operation::StepInstruction => "單步執行指令",
            Operation::Trace => "trace（單步執行指令）",
            Operation::StartRecording => "開始新的錄製",
            Operation::StartReplay => "開始播放另一份 replay",
            Operation::Reset => "按 reset（reset 也是 replay 輸入的一部分）",
        }
    }
}

/// What the user is told when something does not work.
#[allow(inconsistent_fields)]
#[derive(Debug, Clone, Copy, PartialEq, Eq)]
pub enum Notice {
    /// It would lead away from what is recorded or replayed.
    Refused { replaying: bool, what: Operation },
    /// Single steps are for a machine that is paused.
    NotPaused,
    CannotLoadRom(RomError),
    CannotRestart(RomError),
    NoRomToRecord,
    NoRomToPlay,
    CannotRecord(ReplayError),
    CannotFinish(ReplayError),
    BadReplay(ReplayError),
    CannotPlay(ReplayError),
    RecordingStopped(ReplayError),
    CannotLoadState(StateError),
}

/// Two pieces of text.
fn joined(before: &str, after: String) -> (text: String)
    ensures
        text@ == before@ + after@,
{
    let mut text: String = before.to_owned();
    text.append(after.as_str());
    text
}

impl Notice {
    pub open spec fn text(self) -> Seq<char> {
        match self {
            Notice::Refused { replaying, what } => (if replaying {
                "播放 replay 中"@
            } else {
                "錄製中"@
            }) + "不能"@ + what.text() + "：它會破壞「從開機狀態依輸入序列執行」的前提"@,
            Notice::NotPaused => "單步/trace 只能在暫停狀態下使用"@,
            Notice::CannotLoadRom(error) => "無法載入 ROM: "@ + error.text(),
            Notice::CannotRestart(error) => "重新開機失敗: "@ + error.text(),
            Notice::NoRomToRecord => "尚未載入 ROM，無法錄製"@,
            Notice::NoRomToPlay => "尚未載入 ROM：請先載入 replay 對應的 ROM"@,
            Notice::CannotRecord(error) => "無法開始錄製: "@ + error.text(),
            Notice::CannotFinish(error) => "結束錄製失敗: "@ + error.text(),
            Notice::BadReplay(error) => "replay 檔案無效: "@ + error.text(),
            Notice::CannotPlay(error) => "無法播放 replay："@ + error.text(),
            Notice::RecordingStopped(error) => "錄製中止："@ + error.text(),
            Notice::CannotLoadState(error) => error.text(),
        }
    }

    /// The message for the user.
    pub fn message(&self) -> (message: String)
        ensures
            message@ == self.text(),
    {
        match self {
            Notice::Refused { replaying, what } => {
                let mut text: String = if *replaying {
                    "播放 replay 中".to_owned()
                } else {
                    "錄製中".to_owned()
                };
                text.append("不能");
                text.append(what.name());
                text.append("：它會破壞「從開機狀態依輸入序列執行」的前提");
                text
            },
            Notice::NotPaused => "單步/trace 只能在暫停狀態下使用".to_owned(),
            Notice::CannotLoadRom(error) => joined("無法載入 ROM: ", error.message()),
            Notice::CannotRestart(error) => joined("重新開機失敗: ", error.message()),
            Notice::NoRomToRecord => "尚未載入 ROM，無法錄製".to_owned(),
            Notice::NoRomToPlay => "尚未載入 ROM：請先載入 replay 對應的 ROM".to_owned(),
            Notice::CannotRecord(error) => joined("無法開始錄製: ", error.message()),
            Notice::CannotFinish(error) => joined("結束錄製失敗: ", error.message()),
            Notice::BadReplay(error) => joined("replay 檔案無效: ", error.message()),
            Notice::CannotPlay(error) => joined("無法播放 replay：", error.message()),
            Notice::RecordingStopped(error) => joined("錄製中止：", error.message()),
            Notice::CannotLoadState(error) => error.message(),
        }
    }
}

/// What the emulator thread tells the window.
#[allow(inconsistent_fields)]
#[derive(Debug, Clone)]
pub enum EmuEvent {
    RomLoaded(RomInfo, RomId),
    /// What is recorded or replayed has changed.
    Session(SessionStatus),
    /// The emulator paused the machine by itself.
    Paused(bool),
    /// The file of a recording that is over.
    RecordingFinished { bytes: Vec<u8>, frames: u32 },
    /// A save state that was asked for.
    StateExported(Vec<u8>),
    Error(Notice),
    /// How many frames the machine ran.
    FrameAdvanced(u64),
}

/// An event as a value.
pub enum EventModel {
    RomLoaded(RomInfo, RomId),
    Session(SessionStatus),
    Paused(bool),
    RecordingFinished(Seq<u8>, u32),
    StateExported(Seq<u8>),
    Error(Notice),
    FrameAdvanced(u64),
}

impl View for EmuEvent {
    type V = EventModel;

    open spec fn view(&self) -> EventModel {
        match *self {
            EmuEvent::RomLoaded(info, id) => EventModel::RomLoaded(info, id),
            EmuEvent::Session(status) => EventModel::Session(status),
            EmuEvent::Paused(paused) => EventModel::Paused(paused),
            EmuEvent::RecordingFinished { bytes, frames } => EventModel::RecordingFinished(
                bytes@,
                frames,
            ),
            EmuEvent::StateExported(bytes) => EventModel::StateExported(bytes@),
            EmuEvent::Error(notice) => EventModel::Error(notice),
            EmuEvent::FrameAdvanced(count) => EventModel::FrameAdvanced(count),
        }
    }
}

/// What the thread does next, outside the machine.
#[derive(Debug, Clone)]
pub enum Effect {
    Send(EmuEvent),
    /// Hand the picture to the window.
    ShowPicture,
    /// Hand a snapshot to the debugger.
    ShowSnapshot,
    /// Hand pictures of the PPU memory, in this palette, to the debugger.
    ShowViews(u8),
    /// Silence the sound device, or let it play.
    PauseSound(bool),
    /// Let the sample rate start from its nominal value.
    SteadyRate,
    /// Drop what the sound device has not played yet, as another machine begins.
    FlushSound,
    /// Play what the machine recorded.
    PlaySound,
    /// Drop what the machine recorded.
    DropSound,
    /// Run so many instructions and write a line on each.
    Trace(u32),
}

/// An effect as a value.
pub enum EffectModel {
    Send(EventModel),
    ShowPicture,
    ShowSnapshot,
    ShowViews(u8),
    PauseSound(bool),
    SteadyRate,
    FlushSound,
    PlaySound,
    DropSound,
    Trace(u32),
}

impl View for Effect {
    type V = EffectModel;

    open spec fn view(&self) -> EffectModel {
        match *self {
            Effect::Send(event) => EffectModel::Send(event@),
            Effect::ShowPicture => EffectModel::ShowPicture,
            Effect::ShowSnapshot => EffectModel::ShowSnapshot,
            Effect::ShowViews(palette) => EffectModel::ShowViews(palette),
            Effect::PauseSound(paused) => EffectModel::PauseSound(paused),
            Effect::SteadyRate => EffectModel::SteadyRate,
            Effect::FlushSound => EffectModel::FlushSound,
            Effect::PlaySound => EffectModel::PlaySound,
            Effect::DropSound => EffectModel::DropSound,
            Effect::Trace(count) => EffectModel::Trace(count),
        }
    }
}

/// The effects as values.
pub open spec fn effects_of(effects: Seq<Effect>) -> Seq<EffectModel> {
    Seq::new(effects.len(), |i: int| effects[i]@)
}

} // verus!

//! What the window knows, what it offers and what it says.
//!
//! The window owns no machine. It hears of it by events and asks for things by commands. While a
//! replay is recorded or played, and in a game over the network, it offers nothing that would lead
//! the machine astray.

use vstd::prelude::*;
use vstd::string::*;

use crate::cartridge::{RomId, RomInfo};
use crate::joypad::Buttons;
use crate::netplay::{list, listed, names_of, NetEndKind, NetPhase};
use crate::replay::ReplayMismatch;
use crate::session::{EmuCommand, EmuEvent, EventModel, PlaybackSpeed, SessionStatus};
use crate::text::{dec, push_dec};

verus! {

/// The window.
#[derive(Debug, Clone)]
pub struct Window {
    rom: Option<(RomInfo, RomId)>,
    last_error: Option<String>,
    last_info: Option<String>,
    frame_count: u64,
    /// The buttons that were last sent, of both players.
    p1: Buttons,
    p2: Buttons,
    paused: bool,
    session: SessionStatus,
    speed: PlaybackSpeed,
    /// A recording that was not saved yet.
    unsaved: Option<Vec<u8>>,
    /// A mismatch that is shown.
    mismatch: Option<ReplayMismatch>,
    net: NetPhase,
}

/// A window as a value.
pub struct WindowModel {
    pub rom: Option<(RomInfo, RomId)>,
    pub last_error: Option<Seq<char>>,
    pub last_info: Option<Seq<char>>,
    pub frame_count: u64,
    pub p1: Buttons,
    pub p2: Buttons,
    pub paused: bool,
    pub session: SessionStatus,
    pub speed: PlaybackSpeed,
    pub unsaved: Option<Seq<u8>>,
    pub mismatch: Option<ReplayMismatch>,
    pub net: NetPhase,
}

pub open spec fn text_of(text: Option<String>) -> Option<Seq<char>> {
    match text {
        Some(text) => Some(text@),
        None => None,
    }
}

pub open spec fn file_of(bytes: Option<Vec<u8>>) -> Option<Seq<u8>> {
    match bytes {
        Some(bytes) => Some(bytes@),
        None => None,
    }
}

impl View for Window {
    type V = WindowModel;

    closed spec fn view(&self) -> WindowModel {
        WindowModel {
            rom: self.rom,
            last_error: text_of(self.last_error),
            last_info: text_of(self.last_info),
            frame_count: self.frame_count,
            p1: self.p1,
            p2: self.p2,
            paused: self.paused,
            session: self.session,
            speed: self.speed,
            unsaved: file_of(self.unsaved),
            mismatch: self.mismatch,
            net: self.net,
        }
    }
}

/// What the window does after an event.
#[derive(Debug, Clone)]
pub enum Reaction {
    Nothing,
    /// Asks where to save the recording.
    SaveRecording,
    /// Asks where to save this state.
    SaveState(Vec<u8>),
}

/// What the menus offer.
#[derive(Debug, Clone, Copy, PartialEq, Eq, Structural)]
pub struct Menu {
    pub open_rom: bool,
    pub save_state_file: bool,
    pub save_recording: bool,
    pub pause: bool,
    pub reset: bool,
    pub load_state: bool,
    pub start_recording: bool,
    pub stop_recording: bool,
    pub play_replay: bool,
    pub stop_replay: bool,
    pub step_instruction: bool,
    pub step_frame: bool,
    pub trace: bool,
    pub netplay: bool,
    pub cancel_netplay: bool,
}

impl WindowModel {
    pub open spec fn fresh() -> WindowModel {
        WindowModel {
            rom: None,
            last_error: None,
            last_info: None,
            frame_count: 0,
            p1: Buttons { raw: 0 },
            p2: Buttons { raw: 0 },
            paused: false,
            session: SessionStatus::Idle,
            speed: PlaybackSpeed::X1,
            unsaved: None,
            mismatch: None,
            net: NetPhase::Idle,
        }
    }

    pub open spec fn recording(self) -> bool {
        self.session is Recording
    }

    pub open spec fn playing(self) -> bool {
        self.session is Playing
    }

    pub open spec fn netplaying(self) -> bool {
        self.net !is Idle
    }

    /// Something goes on that must not be disturbed.
    pub open spec fn busy(self) -> bool {
        self.recording() || self.playing() || self.netplaying()
    }

    /// What the menus offer.
    pub open spec fn menu(self) -> Menu {
        let loaded = self.rom is Some;
        Menu {
            open_rom: !self.busy(),
            save_state_file: loaded,
            save_recording: self.unsaved is Some,
            pause: !self.netplaying(),
            reset: loaded && !self.playing() && !self.netplaying(),
            load_state: !self.busy(),
            start_recording: loaded && !self.busy(),
            stop_recording: self.recording(),
            play_replay: loaded && !self.busy(),
            stop_replay: self.playing(),
            step_instruction: self.paused && !self.busy(),
            step_frame: self.paused,
            trace: self.paused && !self.busy(),
            netplay: loaded && !self.busy(),
            cancel_netplay: self.netplaying() && self.net !is Closing,
        }
    }

    /// Why something is not offered.
    pub open spec fn restriction(self) -> Seq<char> {
        if self.netplaying() {
            "Netplay 中停用：讀取存檔（F9）、單步指令、Trace、載入別的 ROM、暫停、Reset、錄製／播放 replay。原因：這些操作只發生在你這一端，會讓雙方的模擬分歧（同步暫停與讀檔留待之後評估）。存檔仍可用：F5 存到記憶體、File → Save State to File 存成檔案，方便除錯。"@
        } else {
            "錄製／播放 replay 中停用：讀取存檔（F9）、單步指令、Trace、載入別的 ROM。replay 是「開機狀態 + 每幀輸入」，這些操作會讓模擬離開「從開機狀態依輸入序列執行」的軌道，錄出來的 replay 之後就無法重播。暫停與「單步一幀」仍可用（單步的幀會被錄進 replay）。"@
        }
    }

    /// The window after an event.
    pub open spec fn heard(self, event: EventModel) -> WindowModel {
        match event {
            EventModel::RomLoaded(info, id) => WindowModel {
                rom: Some((info, id)),
                last_error: None,
                last_info: None,
                ..self
            },
            EventModel::Error(notice) => WindowModel { last_error: Some(notice.text()), ..self },
            EventModel::FrameAdvanced(count) => WindowModel { frame_count: count, ..self },
            EventModel::Session(status) => WindowModel {
                session: status,
                mismatch: match status {
                    SessionStatus::Mismatch(m) => Some(m),
                    _ => self.mismatch,
                },
                ..self
            },
            EventModel::Paused(paused) => WindowModel { paused, ..self },
            EventModel::RecordingFinished(bytes, frames) => WindowModel {
                last_info: Some("錄製結束："@ + dec(frames as nat) + " 幀"@),
                unsaved: Some(bytes),
                ..self
            },
            EventModel::StateExported(_) => self,
        }
    }

    /// The buttons of a player, if they are to be sent: they changed, no replay is played, and over
    /// the network there is only one player here.
    pub open spec fn sends(self, player: u8, buttons: Buttons) -> bool {
        &&& !self.playing()
        &&& player == 0 || player == 1 && !self.netplaying()
        &&& buttons != if player == 0 { self.p1 } else { self.p2 }
    }

    /// The window after it sent a player's buttons.
    pub open spec fn pressing(self, player: u8, buttons: Buttons) -> WindowModel {
        if !self.sends(player, buttons) {
            self
        } else if player == 0 {
            WindowModel { p1: buttons, ..self }
        } else {
            WindowModel { p2: buttons, ..self }
        }
    }

    /// The line on what is recorded or played. What a recording takes in seconds is not in it.
    pub open spec fn session_line(self) -> Seq<char> {
        match self.session {
            SessionStatus::Idle => ""@,
            SessionStatus::Recording { frames } => "[錄製中] 第 "@ + dec(frames as nat) + " 幀"@,
            SessionStatus::Playing { frame, total, verified, checkpoints } => "[播放中 "@
                + speed_text(self.speed) + "] 第 "@ + dec(frame as nat) + "/"@ + dec(total as nat)
                + " 幀｜檢查點 "@ + dec(verified as nat) + "/"@ + dec(checkpoints as nat)
                + " 已驗證相符｜鍵盤輸入已停用"@,
            SessionStatus::Finished { total, checkpoints } => "[播放完成] "@ + dec(total as nat)
                + " 幀，"@ + dec(checkpoints as nat) + " 個檢查點全數相符"@,
            SessionStatus::Mismatch(m) => "[檢查點不符] 第 "@ + dec(m.frame as nat)
                + " 幀；分歧發生在第 "@ + dec(m.first_suspect() as nat) + "–"@ + dec(m.frame as nat)
                + " 幀之間"@,
        }
    }

    /// The line on the ROM.
    pub open spec fn rom_line(self) -> Seq<char> {
        match self.rom {
            None => "尚未載入 ROM"@,
            Some((info, _)) => "Mapper "@ + dec(info.mapper_id as nat) + " | PRG "@ + dec(
                info.prg_rom_banks as nat,
            ) + "x16KB | CHR "@ + dec(info.chr_rom_banks as nat) + "x8KB"@,
        }
    }

    /// The window after a game over the network ended: in peace, with a word on the replays that
    /// were saved, or with an error.
    pub open spec fn net_over(
        self,
        kind: NetEndKind,
        message: Seq<char>,
        files: Seq<Seq<char>>,
    ) -> WindowModel {
        let saved = listed(files);
        let a = WindowModel { net: NetPhase::Idle, ..self };
        match kind {
            NetEndKind::Normal => WindowModel {
                last_error: None,
                last_info: Some(
                    if saved.len() == 0 { message } else { message + "。replay："@ + saved },
                ),
                ..a
            },
            _ => WindowModel { last_error: Some(message), ..a },
        }
    }
}

pub open spec fn speed_text(speed: PlaybackSpeed) -> Seq<char> {
    match speed {
        PlaybackSpeed::X1 => "1x"@,
        PlaybackSpeed::X2 => "2x"@,
        PlaybackSpeed::Max => "最快"@,
    }
}

pub fn speed_label(speed: PlaybackSpeed) -> (label: &'static str)
    ensures
        label@ == speed_text(speed),
{
    match speed {
        PlaybackSpeed::X1 => "1x",
        PlaybackSpeed::X2 => "2x",
        PlaybackSpeed::Max => "最快",
    }
}

/// A number in a sentence.
fn around(before: &str, v: u64, after: &str) -> (text: String)
    ensures
        text@ == before@ + dec(v as nat) + after@,
{
    let mut text: String = before.to_owned();
    push_dec(&mut text, v);
    text.append(after);
    text
}

impl Window {
    pub fn new() -> (window: Self)
        ensures
            window@ == WindowModel::fresh(),
    {
        Window {
            rom: None,
            last_error: None,
            last_info: None,
            frame_count: 0,
            p1: Buttons::empty(),
            p2: Buttons::empty(),
            paused: false,
            session: SessionStatus::Idle,
            speed: PlaybackSpeed::X1,
            unsaved: None,
            mismatch: None,
            net: NetPhase::Idle,
        }
    }

    /// A replay is recorded.
    pub fn recording(&self) -> (yes: bool)
        ensures
            yes == self@.recording(),
    {
        matches!(self.session, SessionStatus::Recording { .. })
    }

    /// A replay is played.
    pub fn playing(&self) -> (yes: bool)
        ensures
            yes == self@.playing(),
    {
        matches!(self.session, SessionStatus::Playing { .. })
    }

    /// A game over the network goes on, or is about to.
    pub fn netplaying(&self) -> (yes: bool)
        ensures
            yes == self@.netplaying(),
    {
        !matches!(self.net, NetPhase::Idle)
    }

    /// Something goes on that must not be disturbed.
    pub fn busy(&self) -> (yes: bool)
        ensures
            yes == self@.busy(),
    {
        self.recording() || self.playing() || self.netplaying()
    }

    /// What the menus offer.
    pub fn menu(&self) -> (menu: Menu)
        ensures
            menu == self@.menu(),
    {
        let loaded: bool = self.rom.is_some();
        let busy: bool = self.busy();
        let netplaying: bool = self.netplaying();
        Menu {
            open_rom: !busy,
            save_state_file: loaded,
            save_recording: self.unsaved.is_some(),
            pause: !netplaying,
            reset: loaded && !self.playing() && !netplaying,
            load_state: !busy,
            start_recording: loaded && !busy,
            stop_recording: self.recording(),
            play_replay: loaded && !busy,
            stop_replay: self.playing(),
            step_instruction: self.paused && !busy,
            step_frame: self.paused,
            trace: self.paused && !busy,
            netplay: loaded && !busy,
            cancel_netplay: netplaying && !matches!(self.net, NetPhase::Closing),
        }
    }

    /// Why something is not offered.
    pub fn restriction_text(&self) -> (text: &'static str)
        ensures
            text@ == self@.restriction(),
    {
        if self.netplaying() {
            "Netplay 中停用：讀取存檔（F9）、單步指令、Trace、載入別的 ROM、暫停、Reset、錄製／播放 replay。原因：這些操作只發生在你這一端，會讓雙方的模擬分歧（同步暫停與讀檔留待之後評估）。存檔仍可用：F5 存到記憶體、File → Save State to File 存成檔案，方便除錯。"
        } else {
            "錄製／播放 replay 中停用：讀取存檔（F9）、單步指令、Trace、載入別的 ROM。replay 是「開機狀態 + 每幀輸入」，這些操作會讓模擬離開「從開機狀態依輸入序列執行」的軌道，錄出來的 replay 之後就無法重播。暫停與「單步一幀」仍可用（單步的幀會被錄進 replay）。"
        }
    }

    /// Pauses the machine, or lets it go on. Over the network nothing happens. Returns what to ask.
    pub fn toggle_pause(&mut self) -> (ask: Option<EmuCommand>)
        ensures
            if old(self)@.netplaying() {
                ask is None && final(self)@ == old(self)@
            } else {
                &&& final(self)@ == (WindowModel { paused: !old(self)@.paused, ..old(self)@ })
                &&& ask == Some(
                    if old(self)@.paused { EmuCommand::Resume } else { EmuCommand::Pause },
                )
            },
    {
        if self.netplaying() {
            return None;
        }
        self.paused = !self.paused;
        if self.paused {
            Some(EmuCommand::Pause)
        } else {
            Some(EmuCommand::Resume)
        }
    }

    /// Takes note of an event. Returns what the window does next.
    pub fn note(&mut self, event: EmuEvent) -> (reaction: Reaction)
        ensures
            final(self)@ == old(self)@.heard(event@),
            match event {
                EmuEvent::RecordingFinished { .. } => reaction is SaveRecording,
                EmuEvent::StateExported(bytes) => reaction == Reaction::SaveState(bytes),
                _ => reaction is Nothing,
            },
    {
        match event {
            EmuEvent::RomLoaded(info, id) => {
                self.rom = Some((info, id));
                self.last_error = None;
                self.last_info = None;
            },
            EmuEvent::Error(notice) => {
                self.last_error = Some(notice.message());
            },
            EmuEvent::FrameAdvanced(count) => {
                self.frame_count = count;
            },
            EmuEvent::Session(status) => {
                if let SessionStatus::Mismatch(m) = status {
                    self.mismatch = Some(m);
                }
                self.session = status;
            },
            EmuEvent::Paused(paused) => {
                self.paused = paused;
            },
            EmuEvent::RecordingFinished { bytes, frames } => {
                self.last_info = Some(around("錄製結束：", frames as u64, " 幀"));
                self.unsaved = Some(bytes);
                return Reaction::SaveRecording;
            },
            EmuEvent::StateExported(bytes) => {
                return Reaction::SaveState(bytes);
            },
        }
        Reaction::Nothing
    }

    /// A player holds these buttons. Returns what to ask, if anything is to be sent.
    pub fn press(&mut self, player: u8, buttons: Buttons) -> (ask: Option<EmuCommand>)
        ensures
            final(self)@ == old(self)@.pressing(player, buttons),
            ask == if old(self)@.sends(player, buttons) {
                Some(EmuCommand::SetInput(player, buttons))
            } else {
                None
            },
    {
        if self.playing() || player > 1 || player == 1 && self.netplaying() {
            return None;
        }
        if player == 0 {
            if buttons == self.p1 {
                return None;
            }
            self.p1 = buttons;
        } else {
            if buttons == self.p2 {
                return None;
            }
            self.p2 = buttons;
        }
        Some(EmuCommand::SetInput(player, buttons))
    }

    /// Takes the recording that was not saved yet.
    pub fn take_recording(&mut self) -> (bytes: Option<Vec<u8>>)
        ensures
            file_of(bytes) == old(self)@.unsaved,
            final(self)@ == (WindowModel { unsaved: None, ..old(self)@ }),
    {
        let mut bytes: Option<Vec<u8>> = None;
        std::mem::swap(&mut bytes, &mut self.unsaved);
        bytes
    }

    /// The user chose no file, so the recording is kept.
    pub fn recording_kept(&mut self, bytes: Vec<u8>)
        ensures
            final(self)@ == (WindowModel {
                unsaved: Some(bytes@),
                last_info: Some("尚未儲存 replay（可用 File → Save Recording As… 再存）"@),
                ..old(self)@
            }),
    {
        self.unsaved = Some(bytes);
        self.last_info = Some("尚未儲存 replay（可用 File → Save Recording As… 再存）".to_owned());
    }

    /// The recording was written.
    pub fn recording_saved(&mut self, path: &str, size: usize)
        ensures
            final(self)@ == (WindowModel {
                last_error: None,
                last_info: Some(
                    "已儲存 replay："@ + path@ + "（"@ + dec(size as nat) + " 位元組）"@,
                ),
                ..old(self)@
            }),
    {
        let mut text: String = "已儲存 replay：".to_owned();
        text.append(path);
        text.append("（");
        push_dec(&mut text, size as u64);
        text.append(" 位元組）");
        self.last_error = None;
        self.last_info = Some(text);
    }

    /// The recording could not be written, so it is kept.
    pub fn recording_failed(&mut self, bytes: Vec<u8>, error: &str)
        ensures
            final(self)@ == (WindowModel {
                unsaved: Some(bytes@),
                last_error: Some("儲存 replay 失敗: "@ + error@),
                ..old(self)@
            }),
    {
        let mut text: String = "儲存 replay 失敗: ".to_owned();
        text.append(error);
        self.last_error = Some(text);
        self.unsaved = Some(bytes);
    }

    /// Something went wrong outside the machine.
    pub fn fail(&mut self, what: &str, error: &str)
        ensures
            final(self)@ == (WindowModel { last_error: Some(what@ + error@), ..old(self)@ }),
    {
        let mut text: String = what.to_owned();
        text.append(error);
        self.last_error = Some(text);
    }

    /// Something went well outside the machine.
    pub fn succeed(&mut self, what: &str, path: &str)
        ensures
            final(self)@ == (WindowModel {
                last_error: None,
                last_info: Some(what@ + path@),
                ..old(self)@
            }),
    {
        let mut text: String = what.to_owned();
        text.append(path);
        self.last_error = None;
        self.last_info = Some(text);
    }

    /// A trace was written.
    pub fn trace_written(&mut self, lines: u32, path: &str)
        ensures
            final(self)@ == (WindowModel {
                last_info: Some("已寫入 "@ + dec(lines as nat) + " 行 trace 到 "@ + path@),
                ..old(self)@
            }),
    {
        let mut text: String = around("已寫入 ", lines as u64, " 行 trace 到 ");
        text.append(path);
        self.last_info = Some(text);
    }

    pub fn set_speed(&mut self, speed: PlaybackSpeed)
        ensures
            final(self)@ == (WindowModel { speed, ..old(self)@ }),
    {
        self.speed = speed;
    }

    pub fn set_net(&mut self, net: NetPhase)
        ensures
            final(self)@ == (WindowModel { net, ..old(self)@ }),
    {
        self.net = net;
    }

    /// A game over the network ended. `files` are the replays that were saved.
    pub fn net_ended(&mut self, kind: NetEndKind, message: &str, files: &Vec<String>)
        ensures
            final(self)@ == old(self)@.net_over(kind, message@, names_of(files@)),
    {
        self.net = NetPhase::Idle;
        let mut text: String = message.to_owned();
        match kind {
            NetEndKind::Normal => {
                let saved: String = list(files);
                if saved.as_str().unicode_len() > 0 {
                    text.append("。replay：");
                    text.append(saved.as_str());
                }
                self.last_error = None;
                self.last_info = Some(text);
            },
            _ => {
                self.last_error = Some(text);
            },
        }
    }

    /// The mismatch was read.
    pub fn dismiss_mismatch(&mut self)
        ensures
            final(self)@ == (WindowModel { mismatch: None, ..old(self)@ }),
    {
        self.mismatch = None;
    }

    /// The mismatch that is shown.
    pub fn mismatch(&self) -> (mismatch: Option<ReplayMismatch>)
        ensures
            mismatch == self@.mismatch,
    {
        self.mismatch
    }

    pub fn paused(&self) -> (paused: bool)
        ensures
            paused == self@.paused,
    {
        self.paused
    }

    pub fn frame_count(&self) -> (count: u64)
        ensures
            count == self@.frame_count,
    {
        self.frame_count
    }

    pub fn session(&self) -> (session: SessionStatus)
        ensures
            session == self@.session,
    {
        self.session
    }

    pub fn net(&self) -> (net: NetPhase)
        ensures
            net == self@.net,
    {
        self.net
    }

    pub fn speed(&self) -> (speed: PlaybackSpeed)
        ensures
            speed == self@.speed,
    {
        self.speed
    }

    pub fn rom_id(&self) -> (id: Option<RomId>)
        ensures
            id == match self@.rom {
                Some((_, id)) => Some(id),
                None => None,
            },
    {
        match self.rom {
            Some((_, id)) => Some(id),
            None => None,
        }
    }

    pub fn last_error(&self) -> (text: Option<&str>)
        ensures
            match text {
                Some(text) => self@.last_error == Some(text@),
                None => self@.last_error is None,
            },
    {
        match &self.last_error {
            Some(text) => Some(text.as_str()),
            None => None,
        }
    }

    pub fn last_info(&self) -> (text: Option<&str>)
        ensures
            match text {
                Some(text) => self@.last_info == Some(text@),
                None => self@.last_info is None,
            },
    {
        match &self.last_info {
            Some(text) => Some(text.as_str()),
            None => None,
        }
    }

    /// The line on what is recorded or played.
    pub fn session_label(&self) -> (text: String)
        ensures
            text@ == self@.session_line(),
    {
        match self.session {
            SessionStatus::Idle => "".to_owned(),
            SessionStatus::Recording { frames } => around("[錄製中] 第 ", frames as u64, " 幀"),
            SessionStatus::Playing { frame, total, verified, checkpoints } => {
                let mut text: String = "[播放中 ".to_owned();
                text.append(speed_label(self.speed));
                text.append("] 第 ");
                push_dec(&mut text, frame as u64);
                text.append("/");
                push_dec(&mut text, total as u64);
                text.append(" 幀｜檢查點 ");
                push_dec(&mut text, verified as u64);
                text.append("/");
                push_dec(&mut text, checkpoints as u64);
                text.append(" 已驗證相符｜鍵盤輸入已停用");
                text
            },
            SessionStatus::Finished { total, checkpoints } => {
                let mut text: String = around("[播放完成] ", total as u64, " 幀，");
                push_dec(&mut text, checkpoints as u64);
                text.append(" 個檢查點全數相符");
                text
            },
            SessionStatus::Mismatch(m) => {
                let mut text: String = around("[檢查點不符] 第 ", m.frame as u64, " 幀；分歧發生在第 ");
                push_dec(&mut text, m.suspect_from() as u64);
                text.append("–");
                push_dec(&mut text, m.frame as u64);
                text.append(" 幀之間");
                text
            },
        }
    }

    /// The line on the ROM.
    pub fn rom_label(&self) -> (text: String)
        ensures
            text@ == self@.rom_line(),
    {
        match self.rom {
            None => "尚未載入 ROM".to_owned(),
            Some((info, _)) => {
                let mut text: String = around("Mapper ", info.mapper_id as u64, " | PRG ");
                push_dec(&mut text, info.prg_rom_banks as u64);
                text.append("x16KB | CHR ");
                push_dec(&mut text, info.chr_rom_banks as u64);
                text.append("x8KB");
                text
            },
        }
    }
}

/// What the menus offer never leads the machine astray: while something goes on that must not be
/// disturbed, no ROM is loaded, no state restored, no single instruction run, and nothing else
/// begun.
pub proof fn law_nothing_offered_disturbs(window: WindowModel)
    requires
        window.busy(),
    ensures
        ({
            let menu = window.menu();
            &&& !menu.open_rom
            &&& !menu.load_state
            &&& !menu.step_instruction
            &&& !menu.trace
            &&& !menu.start_recording
            &&& !menu.play_replay
            &&& !menu.netplay
        }),
{
}

} // verus!

//! The window and its panels.

use nes_core::panel::{
    cpu_lines, dmc_rows, flag, frame_counter_text, frame_rows, mapper_heading, noise_rows,
    palette_bytes, palette_color, palette_index, palette_name, ppu_lines, pulse_rows, sprite_cells,
    switched_channel, triangle_rows, yes, Tab, ViewRequest, TABS,
};
use nes_core::ppu::palette::SYSTEM_PALETTE;
use nes_core::session::{EmuCommand, EmuEvent, Notice, SessionStatus};
use nes_core::netplay::{NetEndKind, NetPhase};
use nes_core::window::{Reaction, Window};
use nes_core::{
    Buttons, DebugSnapshot, FrameInput, Mirroring, Nes, ReplayMismatch, RomId, RomInfo,
};

/// A small assembler for test programs.
#[allow(dead_code)]
struct Asm {
    origin: u16,
    bytes: Vec<u8>,
}

#[allow(dead_code)]
impl Asm {
    fn new(origin: u16) -> Asm {
        Asm { origin, bytes: Vec::new() }
    }

    fn pc(&self) -> u16 {
        self.origin + self.bytes.len() as u16
    }

    fn op(&mut self, bytes: &[u8]) -> &mut Asm {
        self.bytes.extend_from_slice(bytes);
        self
    }

    fn op_abs(&mut self, opcode: u8, addr: u16) -> &mut Asm {
        self.op(&[opcode, addr as u8, (addr >> 8) as u8])
    }

    fn branch(&mut self, opcode: u8, target: u16) -> &mut Asm {
        let next = self.pc().wrapping_add(2);
        self.op(&[opcode, target.wrapping_sub(next) as u8])
    }

    fn jmp(&mut self, addr: u16) -> &mut Asm {
        self.op_abs(0x4C, addr)
    }

    fn lda_imm(&mut self, v: u8) -> &mut Asm {
        self.op(&[0xA9, v])
    }

    fn ldx_imm(&mut self, v: u8) -> &mut Asm {
        self.op(&[0xA2, v])
    }

    fn and_imm(&mut self, v: u8) -> &mut Asm {
        self.op(&[0x29, v])
    }

    fn cmp_imm(&mut self, v: u8) -> &mut Asm {
        self.op(&[0xC9, v])
    }

    fn cpx_imm(&mut self, v: u8) -> &mut Asm {
        self.op(&[0xE0, v])
    }

    fn lda_abs(&mut self, addr: u16) -> &mut Asm {
        self.op_abs(0xAD, addr)
    }

    fn lda_abs_x(&mut self, addr: u16) -> &mut Asm {
        self.op_abs(0xBD, addr)
    }

    fn sta_abs(&mut self, addr: u16) -> &mut Asm {
        self.op_abs(0x8D, addr)
    }

    fn sta_abs_x(&mut self, addr: u16) -> &mut Asm {
        self.op_abs(0x9D, addr)
    }

    fn adc_abs(&mut self, addr: u16) -> &mut Asm {
        self.op_abs(0x6D, addr)
    }

    fn inc_abs(&mut self, addr: u16) -> &mut Asm {
        self.op_abs(0xEE, addr)
    }

    fn rol_abs(&mut self, addr: u16) -> &mut Asm {
        self.op_abs(0x2E, addr)
    }

    fn bit_abs(&mut self, addr: u16) -> &mut Asm {
        self.op_abs(0x2C, addr)
    }

    fn bne(&mut self, target: u16) -> &mut Asm {
        self.branch(0xD0, target)
    }

    fn beq(&mut self, target: u16) -> &mut Asm {
        self.branch(0xF0, target)
    }

    fn bpl(&mut self, target: u16) -> &mut Asm {
        self.branch(0x10, target)
    }

    fn bvs(&mut self, target: u16) -> &mut Asm {
        self.branch(0x70, target)
    }

    fn bvc(&mut self, target: u16) -> &mut Asm {
        self.branch(0x50, target)
    }

    fn inx(&mut self) -> &mut Asm {
        self.op(&[0xE8])
    }

    fn txa(&mut self) -> &mut Asm {
        self.op(&[0x8A])
    }

    fn txs(&mut self) -> &mut Asm {
        self.op(&[0x9A])
    }

    fn pha(&mut self) -> &mut Asm {
        self.op(&[0x48])
    }

    fn pla(&mut self) -> &mut Asm {
        self.op(&[0x68])
    }

    fn lsr(&mut self) -> &mut Asm {
        self.op(&[0x4A])
    }

    fn clc(&mut self) -> &mut Asm {
        self.op(&[0x18])
    }

    fn cli(&mut self) -> &mut Asm {
        self.op(&[0x58])
    }

    fn sei(&mut self) -> &mut Asm {
        self.op(&[0x78])
    }

    fn cld(&mut self) -> &mut Asm {
        self.op(&[0xD8])
    }

    fn rti(&mut self) -> &mut Asm {
        self.op(&[0x40])
    }

    fn set_ppu_addr(&mut self, addr: u16) -> &mut Asm {
        self.lda_imm((addr >> 8) as u8)
            .sta_abs(0x2006)
            .lda_imm(addr as u8)
            .sta_abs(0x2006)
    }
}

/// A ROM with 32 KB of program at `$8000` and 8 KB of patterns.
#[allow(dead_code)]
fn build_nrom_irq(
    code: &Asm,
    reset: u16,
    nmi: Option<u16>,
    irq: Option<u16>,
    extra: &[(u16, &[u8])],
    chr: &[u8],
    vertical: bool,
) -> Vec<u8> {
    let mut rom = vec![0u8; 16];
    rom[0..4].copy_from_slice(b"NES\x1A");
    rom[4] = 2;
    rom[5] = 1;
    rom[6] = vertical as u8;
    let mut prg = vec![0u8; 0x8000];
    let start = (code.origin - 0x8000) as usize;
    prg[start..start + code.bytes.len()].copy_from_slice(&code.bytes);
    for (addr, bytes) in extra {
        let at = (*addr - 0x8000) as usize;
        prg[at..at + bytes.len()].copy_from_slice(bytes);
    }
    for (at, vector) in [
        (0x7FFA, nmi.unwrap_or(reset)),
        (0x7FFC, reset),
        (0x7FFE, irq.unwrap_or(reset)),
    ] {
        prg[at] = vector as u8;
        prg[at + 1] = (vector >> 8) as u8;
    }
    rom.extend_from_slice(&prg);
    let mut patterns = vec![0u8; 0x2000];
    patterns[..chr.len()].copy_from_slice(chr);
    rom.extend_from_slice(&patterns);
    rom
}

#[allow(dead_code)]
fn build_nrom(
    code: &Asm,
    reset: u16,
    nmi: Option<u16>,
    extra: &[(u16, &[u8])],
    chr: &[u8],
    vertical: bool,
) -> Vec<u8> {
    build_nrom_irq(code, reset, nmi, None, extra, chr, vertical)
}

/// Patterns: tile 0 is empty, tiles 1 to 3 are solid in their colour, tile 4 is striped, tile 5 has
/// its left half in colour 3 above and is solid below, tile 6 is solid above and empty below, and
/// tile 7 is empty.
#[allow(dead_code)]
fn test_chr() -> Vec<u8> {
    let mut chr = vec![0u8; 0x2000];
    for row in 0..8usize {
        chr[16 + row] = 0xFF;
        chr[2 * 16 + 8 + row] = 0xFF;
        chr[3 * 16 + row] = 0xFF;
        chr[3 * 16 + 8 + row] = 0xFF;
        chr[4 * 16 + row] = 0xAA;
        let left = if row < 4 { 0xF0 } else { 0xFF };
        chr[5 * 16 + row] = left;
        chr[5 * 16 + 8 + row] = left;
        let upper = if row < 4 { 0xFF } else { 0x00 };
        chr[6 * 16 + row] = upper;
        chr[6 * 16 + 8 + row] = upper;
    }
    chr
}

/// A picture with background, sprites and scrolling. The NMI handler counts in `$00`.
#[allow(dead_code)]
fn rendering_rom() -> Vec<u8> {
    let mut a = Asm::new(0x8000);
    a.sei().cld().ldx_imm(0xFF).txs();
    a.set_ppu_addr(0x3F00);
    for color in [
        0x0F, 0x16, 0x2A, 0x30, 0x0F, 0x11, 0x21, 0x31, 0x0F, 0x15, 0x25, 0x35, 0x0F, 0x19, 0x29,
        0x39, 0x0F, 0x06, 0x1A, 0x30, 0x0F, 0x12, 0x22, 0x32,
    ] {
        a.lda_imm(color).sta_abs(0x2007);
    }
    a.set_ppu_addr(0x2000).ldx_imm(0);
    for _ in 0..4 {
        let l = a.pc();
        a.txa().and_imm(0x07).sta_abs(0x2007).inx().bne(l);
    }
    a.ldx_imm(0);
    let l = a.pc();
    a.txa().and_imm(0x7F).sta_abs_x(0x0200).inx().bne(l);
    a.lda_imm(0).sta_abs(0x2003).lda_imm(0x02).sta_abs(0x4014);
    a.lda_imm(0).sta_abs(0x2005).sta_abs(0x2005);
    a.lda_imm(0x80).sta_abs(0x2000).lda_imm(0x1E).sta_abs(0x2001);
    let forever = a.pc();
    a.inc_abs(0x0001).jmp(forever);
    let mut nmi = Asm::new(0x9000);
    nmi.pha()
        .inc_abs(0x0000)
        .lda_abs(0x0000)
        .sta_abs(0x2005)
        .lda_imm(0)
        .sta_abs(0x2005)
        .pla()
        .rti();
    build_nrom(&a, 0x8000, Some(0x9000), &[(0x9000, &nmi.bytes)], &test_chr(), false)
}

fn info() -> RomInfo {
    RomInfo {
        prg_rom_banks: 2,
        chr_rom_banks: 1,
        mapper_id: 3,
        mirroring: Mirroring::Vertical,
        battery_backed: false,
        has_trainer: false,
    }
}

fn loaded() -> Window {
    let mut window = Window::new();
    window.note(EmuEvent::RomLoaded(info(), RomId::of_file(b"rom")));
    window
}

#[test]
fn a_window_without_a_rom_offers_little() {
    let window = Window::new();
    let menu = window.menu();
    assert!(menu.open_rom && menu.pause && menu.load_state);
    assert!(!menu.start_recording && !menu.play_replay && !menu.netplay && !menu.reset);
    assert!(!menu.step_frame && !menu.stop_replay && !menu.cancel_netplay);
    assert_eq!(window.rom_label(), "尚未載入 ROM");
    assert_eq!(window.session_label(), "");
    assert!(window.rom_id().is_none());
}

#[test]
fn nothing_that_disturbs_is_offered_while_recording_playing_or_over_the_network() {
    let mut recording = loaded();
    recording.note(EmuEvent::Session(SessionStatus::Recording { frames: 7 }));
    let mut playing = loaded();
    playing.note(EmuEvent::Session(SessionStatus::Playing {
        frame: 3,
        total: 40,
        verified: 1,
        checkpoints: 2,
    }));
    let mut online = loaded();
    online.set_net(NetPhase::Connected { player: 1, input_delay: 2 });
    for window in [&mut recording, &mut playing, &mut online] {
        window.note(EmuEvent::Paused(true));
        assert!(window.busy());
        let menu = window.menu();
        assert!(!menu.open_rom && !menu.load_state && !menu.step_instruction && !menu.trace);
        assert!(!menu.start_recording && !menu.play_replay && !menu.netplay);
        assert!(menu.step_frame && menu.save_state_file);
    }
    assert!(recording.menu().stop_recording && !playing.menu().stop_recording);
    assert!(playing.menu().stop_replay && !recording.menu().stop_replay);
    assert!(recording.menu().reset && !playing.menu().reset && !online.menu().reset);
    assert!(online.menu().cancel_netplay && !online.menu().pause);
    assert!(online.restriction_text().starts_with("Netplay 中停用"));
    assert!(recording.restriction_text().starts_with("錄製／播放 replay 中停用"));
    online.set_net(NetPhase::Closing);
    assert!(!online.menu().cancel_netplay);
    assert_eq!(recording.session_label(), "[錄製中] 第 7 幀");
    assert_eq!(
        playing.session_label(),
        "[播放中 1x] 第 3/40 幀｜檢查點 1/2 已驗證相符｜鍵盤輸入已停用"
    );
}

#[test]
fn events_are_kept_and_shown() {
    let mut window = loaded();
    assert_eq!(window.rom_label(), "Mapper 3 | PRG 2x16KB | CHR 1x8KB");
    assert_eq!(window.rom_id(), Some(RomId::of_file(b"rom")));
    assert!(matches!(window.note(EmuEvent::Error(Notice::NotPaused)), Reaction::Nothing));
    assert_eq!(window.last_error(), Some("單步/trace 只能在暫停狀態下使用"));
    window.note(EmuEvent::FrameAdvanced(99));
    assert_eq!(window.frame_count(), 99);
    let reaction = window.note(EmuEvent::RecordingFinished { bytes: vec![1, 2], frames: 40 });
    assert!(matches!(reaction, Reaction::SaveRecording));
    assert_eq!(window.last_info(), Some("錄製結束：40 幀"));
    assert!(window.menu().save_recording);
    let bytes = window.take_recording().unwrap();
    assert_eq!(bytes, [1, 2]);
    window.recording_kept(bytes);
    assert_eq!(window.last_info(), Some("尚未儲存 replay（可用 File → Save Recording As… 再存）"));
    let bytes = window.take_recording().unwrap();
    window.recording_failed(bytes, "disk full");
    assert_eq!(window.last_error(), Some("儲存 replay 失敗: disk full"));
    window.recording_saved("a.replay", 2);
    assert_eq!(window.last_info(), Some("已儲存 replay：a.replay（2 位元組）"));
    assert_eq!(window.last_error(), None);
    let reaction = window.note(EmuEvent::StateExported(vec![5]));
    assert!(matches!(reaction, Reaction::SaveState(bytes) if bytes == [5]));
    window.trace_written(25, "t.log");
    assert_eq!(window.last_info(), Some("已寫入 25 行 trace 到 t.log"));
    window.fail("讀取 replay 失敗: ", "gone");
    assert_eq!(window.last_error(), Some("讀取 replay 失敗: gone"));
    window.succeed("已儲存存檔：", "x.state");
    assert_eq!((window.last_error(), window.last_info()), (None, Some("已儲存存檔：x.state")));
    let m = ReplayMismatch { frame: 120, last_good_frame: Some(60), expected: 1, actual: 2 };
    window.note(EmuEvent::Session(SessionStatus::Mismatch(m)));
    assert_eq!(window.mismatch(), Some(m));
    assert_eq!(window.session_label(), "[檢查點不符] 第 120 幀；分歧發生在第 61–120 幀之間");
    window.note(EmuEvent::Session(SessionStatus::Finished { total: 40, checkpoints: 2 }));
    assert_eq!(window.mismatch(), Some(m));
    window.dismiss_mismatch();
    assert_eq!(window.mismatch(), None);
    assert_eq!(window.session_label(), "[播放完成] 40 幀，2 個檢查點全數相符");
    assert!(!window.busy());
}

#[test]
fn pausing_is_asked_for_except_over_the_network() {
    let mut window = loaded();
    assert!(matches!(window.toggle_pause(), Some(EmuCommand::Pause)));
    assert!(window.paused());
    assert!(matches!(window.toggle_pause(), Some(EmuCommand::Resume)));
    window.set_net(NetPhase::Waiting { port: 7000 });
    assert!(window.toggle_pause().is_none());
    assert!(!window.paused());
}

#[test]
fn buttons_are_sent_when_they_change_and_someone_listens() {
    let mut window = loaded();
    assert!(window.press(0, Buttons::empty()).is_none());
    assert!(matches!(
        window.press(0, Buttons::a()),
        Some(EmuCommand::SetInput(0, b)) if b == Buttons::a()
    ));
    assert!(window.press(0, Buttons::a()).is_none());
    assert!(window.press(1, Buttons::b()).is_some());
    assert!(window.press(2, Buttons::b()).is_none());
    window.set_net(NetPhase::Connecting);
    assert!(window.press(1, Buttons::a()).is_none());
    assert!(window.press(0, Buttons::b()).is_some());
    window.set_net(NetPhase::Idle);
    window.note(EmuEvent::Session(SessionStatus::Playing {
        frame: 0,
        total: 1,
        verified: 1,
        checkpoints: 2,
    }));
    assert!(window.press(0, Buttons::start()).is_none());
}

#[test]
fn a_game_over_the_network_ends_in_peace_or_with_an_error() {
    let mut window = loaded();
    window.set_net(NetPhase::Connecting);
    let files = vec!["a.replay".to_string(), "b.replay".to_string()];
    window.net_ended(NetEndKind::Normal, "再見", &files);
    assert!(!window.netplaying());
    assert_eq!(window.last_info(), Some("再見。replay：a.replay、b.replay"));
    window.net_ended(NetEndKind::Normal, "再見", &Vec::new());
    assert_eq!(window.last_info(), Some("再見"));
    window.net_ended(NetEndKind::Desync, "不同步", &Vec::new());
    assert_eq!(window.last_error(), Some("不同步"));
}

// ---- panels --------------------------------------------------------------------

fn snapshot() -> DebugSnapshot {
    let mut nes = Nes::from_rom(&rendering_rom()).unwrap();
    for _ in 0..4 {
        nes.run_frame(FrameInput::none());
    }
    nes.debug_snapshot()
}

#[test]
fn the_cpu_and_ppu_panels_show_the_registers() {
    let mut snap = snapshot();
    let cpu = cpu_lines(&snap);
    assert_eq!(cpu[0], format!("PC: {:#06X}", snap.cpu_pc));
    assert_eq!(
        cpu[1],
        format!("A: {:#04X}  X: {:#04X}  Y: {:#04X}", snap.cpu_a, snap.cpu_x, snap.cpu_y)
    );
    assert_eq!(cpu[2], format!("SP: {:#04X}  Status: {:#04X}", snap.cpu_sp, snap.cpu_status));
    assert_eq!(cpu[3], format!("CPU cycles: {}", snap.cpu_cycles));
    assert_eq!(cpu[4], format!("下一條指令: {}", snap.cpu_disassembly));
    assert_eq!(cpu[5], "APU frame counter: 4步模式");
    snap.apu.frame_mode5 = true;
    snap.apu.frame_inhibit_irq = true;
    assert_eq!(frame_counter_text(&snap.apu), "5步模式（IRQ 抑制）");

    let ppu = ppu_lines(&snap);
    let (c, m, s, v) = (snap.ppu_ctrl, snap.ppu_mask, snap.ppu_status, snap.ppu_v);
    let expected = [
        format!("掃描線: {}  dot: {}  PPU 幀: {}", snap.ppu_scanline, snap.ppu_cycle, snap.ppu_frame),
        format!("PPUCTRL   ${c:02X}"),
        format!(
            "NMI:{} 精靈8x16:{} BG表:{} 精靈表:{} 遞增32:{} NT:{}",
            flag(c, 7),
            flag(c, 5),
            flag(c, 4),
            flag(c, 3),
            flag(c, 2),
            c & 3
        ),
        format!("PPUMASK   ${m:02X}"),
        format!(
            "灰階:{} BG左:{} 精靈左:{} BG:{} 精靈:{} 強調 RGB:{}{}{}",
            flag(m, 0),
            flag(m, 1),
            flag(m, 2),
            flag(m, 3),
            flag(m, 4),
            flag(m, 5),
            flag(m, 6),
            flag(m, 7)
        ),
        format!("PPUSTATUS ${s:02X}"),
        format!("VBlank:{} Sprite0:{} Overflow:{}", flag(s, 7), flag(s, 6), flag(s, 5)),
        format!("OAMADDR   ${:02X}", snap.ppu_oam_addr),
        format!("v: ${v:04X}  t: ${:04X}", snap.ppu_t),
        format!(
            "v → coarseX:{} coarseY:{} NT:{} fineY:{}",
            v & 0x1F,
            (v >> 5) & 0x1F,
            (v >> 10) & 3,
            (v >> 12) & 7
        ),
        format!("fine X: {}  w: {}", snap.ppu_fine_x, u8::from(snap.ppu_w)),
    ];
    assert_eq!(ppu, expected);
    assert_eq!((flag(0xA0, 7), flag(0xA0, 6), flag(0xA0, 5)), (1, 0, 1));
}

#[test]
fn the_palette_panel_follows_the_mirrors() {
    for i in 0..32usize {
        let expected = if i & 3 == 0 { i & 0x0F } else { i };
        assert_eq!(palette_index(i), expected);
    }
    let snap = snapshot();
    assert_eq!(palette_name(3), "BG3");
    assert_eq!(palette_name(5), "SP1");
    assert_eq!(palette_bytes(&snap, 0), "0F 16 2A 30");
    assert_eq!(palette_bytes(&snap, 4), "0F 06 1A 30");
    assert_eq!(palette_color(&snap, 0, 1), SYSTEM_PALETTE[0x16]);
}

#[test]
fn the_sprite_and_mapper_panels_show_their_bytes() {
    let snap = snapshot();
    let cells = sprite_cells(&snap, 17);
    assert_eq!(cells, ["17", "44", "45", "46", "47"]);
    assert_eq!(sprite_cells(&snap, 3)[0], "03");
    assert_eq!(mapper_heading(&snap), "NROM（mapper 0）");
}

#[test]
fn the_sound_panels_show_the_channels() {
    let mut apu = snapshot().apu;
    apu.pulse[0].halt = true;
    apu.pulse[0].constant = true;
    apu.pulse[0].volume = 9;
    apu.pulse[0].envelope = 4;
    apu.pulse[0].sweep_enabled = true;
    apu.pulse[0].sweep_negate = true;
    let rows = pulse_rows(&apu.pulse[0]);
    assert_eq!(rows[0], ("啟用（$4015）".to_string(), "否".to_string()));
    assert_eq!(rows[2].1, "0（halt）");
    assert_eq!(rows[3].1, "固定 9（衰減 4）");
    assert_eq!(rows[4].1, "開 週期 0 往下 位移 0");
    apu.triangle.linear_counter = 12;
    apu.triangle.control = true;
    assert_eq!(triangle_rows(&apu.triangle)[1].1, "12 / 重載值 0（control）");
    apu.noise.mode = true;
    apu.noise.shift = 0x1A5;
    let rows = noise_rows(&apu.noise);
    assert_eq!((rows[3].1.as_str(), rows[4].1.as_str()), ("短 / 0", "$01A5 / 0"));
    apu.dmc.looping = true;
    apu.dmc.sample_addr = 0xC040;
    let rows = dmc_rows(&apu.dmc);
    assert_eq!(rows[0].1, "否 / 是 / 0");
    assert!(rows[1].1.starts_with("$C040 / "));
    apu.frame_irq = true;
    apu.status = 0x4F;
    let rows = frame_rows(&apu);
    assert_eq!(rows[0], ("模式".to_string(), "4步模式".to_string()));
    assert_eq!((rows[2].1.as_str(), rows[4].1.as_str()), ("是", "$4F"));
    assert_eq!((yes(true), yes(false)), ("是", "否"));
    assert_eq!(switched_channel(0x1F, 0x04, false), 0x1B);
    assert_eq!(switched_channel(0x1B, 0x04, true), 0x1F);
}

#[test]
fn views_are_asked_for_only_when_that_changes() {
    let mut request = ViewRequest::new();
    assert_eq!(request.sync(false, Tab::Patterns, 2), None);
    assert_eq!(request.sync(true, Tab::Patterns, 2), Some(Some(2)));
    assert_eq!(request.sync(true, Tab::Nametables, 2), None);
    assert_eq!(request.sync(true, Tab::Nametables, 3), Some(Some(3)));
    assert_eq!(request.sync(true, Tab::Cpu, 3), Some(None));
    let needing = TABS.iter().filter(|t| t.needs_views()).count();
    assert_eq!((TABS.len(), needing), (8, 2));
    assert_eq!(Tab::Palette.label(), "調色盤");
}

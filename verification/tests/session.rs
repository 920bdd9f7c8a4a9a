//! The emulator thread, without the thread.

use nes_core::replay::{verify, VerifyError};
use nes_core::session::{Effect, Emu, EmuCommand, EmuEvent, PlaybackSpeed, SessionStatus};
use nes_core::{
    Buttons, DebugSnapshot, FrameInput, Nes, Replay, ReplayError, ReplayPlayer, ReplayRecorder,
    RomId,
};

/// A small assembler for test programs.
#[allow(dead_code)]
struct Asm {
    origin: u16,
    bytes: Vec<u8>,
}

#[allow(dead_code)]
impl Asm {
    fn new(origin: u16) -> Asm {
        Asm { origin, bytes: Vec::new() }
    }

    fn pc(&self) -> u16 {
        self.origin + self.bytes.len() as u16
    }

    fn op(&mut self, bytes: &[u8]) -> &mut Asm {
        self.bytes.extend_from_slice(bytes);
        self
    }

    fn op_abs(&mut self, opcode: u8, addr: u16) -> &mut Asm {
        self.op(&[opcode, addr as u8, (addr >> 8) as u8])
    }

    fn branch(&mut self, opcode: u8, target: u16) -> &mut Asm {
        let next = self.pc().wrapping_add(2);
        self.op(&[opcode, target.wrapping_sub(next) as u8])
    }

    fn jmp(&mut self, addr: u16) -> &mut Asm {
        self.op_abs(0x4C, addr)
    }

    fn lda_imm(&mut self, v: u8) -> &mut Asm {
        self.op(&[0xA9, v])
    }

    fn ldx_imm(&mut self, v: u8) -> &mut Asm {
        self.op(&[0xA2, v])
    }

    fn and_imm(&mut self, v: u8) -> &mut Asm {
        self.op(&[0x29, v])
    }

    fn cmp_imm(&mut self, v: u8) -> &mut Asm {
        self.op(&[0xC9, v])
    }

    fn cpx_imm(&mut self, v: u8) -> &mut Asm {
        self.op(&[0xE0, v])
    }

    fn lda_abs(&mut self, addr: u16) -> &mut Asm {
        self.op_abs(0xAD, addr)
    }

    fn lda_abs_x(&mut self, addr: u16) -> &mut Asm {
        self.op_abs(0xBD, addr)
    }

    fn sta_abs(&mut self, addr: u16) -> &mut Asm {
        self.op_abs(0x8D, addr)
    }

    fn sta_abs_x(&mut self, addr: u16) -> &mut Asm {
        self.op_abs(0x9D, addr)
    }

    fn adc_abs(&mut self, addr: u16) -> &mut Asm {
        self.op_abs(0x6D, addr)
    }

    fn inc_abs(&mut self, addr: u16) -> &mut Asm {
        self.op_abs(0xEE, addr)
    }

    fn rol_abs(&mut self, addr: u16) -> &mut Asm {
        self.op_abs(0x2E, addr)
    }

    fn bit_abs(&mut self, addr: u16) -> &mut Asm {
        self.op_abs(0x2C, addr)
    }

    fn bne(&mut self, target: u16) -> &mut Asm {
        self.branch(0xD0, target)
    }

    fn beq(&mut self, target: u16) -> &mut Asm {
        self.branch(0xF0, target)
    }

    fn bpl(&mut self, target: u16) -> &mut Asm {
        self.branch(0x10, target)
    }

    fn bvs(&mut self, target: u16) -> &mut Asm {
        self.branch(0x70, target)
    }

    fn bvc(&mut self, target: u16) -> &mut Asm {
        self.branch(0x50, target)
    }

    fn inx(&mut self) -> &mut Asm {
        self.op(&[0xE8])
    }

    fn txa(&mut self) -> &mut Asm {
        self.op(&[0x8A])
    }

    fn txs(&mut self) -> &mut Asm {
        self.op(&[0x9A])
    }

    fn pha(&mut self) -> &mut Asm {
        self.op(&[0x48])
    }

    fn pla(&mut self) -> &mut Asm {
        self.op(&[0x68])
    }

    fn lsr(&mut self) -> &mut Asm {
        self.op(&[0x4A])
    }

    fn clc(&mut self) -> &mut Asm {
        self.op(&[0x18])
    }

    fn cli(&mut self) -> &mut Asm {
        self.op(&[0x58])
    }

    fn sei(&mut self) -> &mut Asm {
        self.op(&[0x78])
    }

    fn cld(&mut self) -> &mut Asm {
        self.op(&[0xD8])
    }

    fn rti(&mut self) -> &mut Asm {
        self.op(&[0x40])
    }

    fn set_ppu_addr(&mut self, addr: u16) -> &mut Asm {
        self.lda_imm((addr >> 8) as u8)
            .sta_abs(0x2006)
            .lda_imm(addr as u8)
            .sta_abs(0x2006)
    }
}

/// A ROM with 32 KB of program at `$8000` and 8 KB of patterns.
#[allow(dead_code)]
fn build_nrom_irq(
    code: &Asm,
    reset: u16,
    nmi: Option<u16>,
    irq: Option<u16>,
    extra: &[(u16, &[u8])],
    chr: &[u8],
    vertical: bool,
) -> Vec<u8> {
    let mut rom = vec![0u8; 16];
    rom[0..4].copy_from_slice(b"NES\x1A");
    rom[4] = 2;
    rom[5] = 1;
    rom[6] = vertical as u8;
    let mut prg = vec![0u8; 0x8000];
    let start = (code.origin - 0x8000) as usize;
    prg[start..start + code.bytes.len()].copy_from_slice(&code.bytes);
    for (addr, bytes) in extra {
        let at = (*addr - 0x8000) as usize;
        prg[at..at + bytes.len()].copy_from_slice(bytes);
    }
    for (at, vector) in [
        (0x7FFA, nmi.unwrap_or(reset)),
        (0x7FFC, reset),
        (0x7FFE, irq.unwrap_or(reset)),
    ] {
        prg[at] = vector as u8;
        prg[at + 1] = (vector >> 8) as u8;
    }
    rom.extend_from_slice(&prg);
    let mut patterns = vec![0u8; 0x2000];
    patterns[..chr.len()].copy_from_slice(chr);
    rom.extend_from_slice(&patterns);
    rom
}

#[allow(dead_code)]
fn build_nrom(
    code: &Asm,
    reset: u16,
    nmi: Option<u16>,
    extra: &[(u16, &[u8])],
    chr: &[u8],
    vertical: bool,
) -> Vec<u8> {
    build_nrom_irq(code, reset, nmi, None, extra, chr, vertical)
}

/// Patterns: tile 0 is empty, tiles 1 to 3 are solid in their colour, tile 4 is striped, tile 5 has
/// its left half in colour 3 above and is solid below, tile 6 is solid above and empty below, and
/// tile 7 is empty.
#[allow(dead_code)]
fn test_chr() -> Vec<u8> {
    let mut chr = vec![0u8; 0x2000];
    for row in 0..8usize {
        chr[16 + row] = 0xFF;
        chr[2 * 16 + 8 + row] = 0xFF;
        chr[3 * 16 + row] = 0xFF;
        chr[3 * 16 + 8 + row] = 0xFF;
        chr[4 * 16 + row] = 0xAA;
        let left = if row < 4 { 0xF0 } else { 0xFF };
        chr[5 * 16 + row] = left;
        chr[5 * 16 + 8 + row] = left;
        let upper = if row < 4 { 0xFF } else { 0x00 };
        chr[6 * 16 + row] = upper;
        chr[6 * 16 + 8 + row] = upper;
    }
    chr
}

/// A picture with background, sprites and scrolling. The NMI handler counts in `$00`.
#[allow(dead_code)]
fn rendering_rom() -> Vec<u8> {
    let mut a = Asm::new(0x8000);
    a.sei().cld().ldx_imm(0xFF).txs();
    a.set_ppu_addr(0x3F00);
    for color in [
        0x0F, 0x16, 0x2A, 0x30, 0x0F, 0x11, 0x21, 0x31, 0x0F, 0x15, 0x25, 0x35, 0x0F, 0x19, 0x29,
        0x39, 0x0F, 0x06, 0x1A, 0x30, 0x0F, 0x12, 0x22, 0x32,
    ] {
        a.lda_imm(color).sta_abs(0x2007);
    }
    a.set_ppu_addr(0x2000).ldx_imm(0);
    for _ in 0..4 {
        let l = a.pc();
        a.txa().and_imm(0x07).sta_abs(0x2007).inx().bne(l);
    }
    a.ldx_imm(0);
    let l = a.pc();
    a.txa().and_imm(0x7F).sta_abs_x(0x0200).inx().bne(l);
    a.lda_imm(0).sta_abs(0x2003).lda_imm(0x02).sta_abs(0x4014);
    a.lda_imm(0).sta_abs(0x2005).sta_abs(0x2005);
    a.lda_imm(0x80).sta_abs(0x2000).lda_imm(0x1E).sta_abs(0x2001);
    let forever = a.pc();
    a.inc_abs(0x0001).jmp(forever);
    let mut nmi = Asm::new(0x9000);
    nmi.pha()
        .inc_abs(0x0000)
        .lda_abs(0x0000)
        .sta_abs(0x2005)
        .lda_imm(0)
        .sta_abs(0x2005)
        .pla()
        .rti();
    build_nrom(&a, 0x8000, Some(0x9000), &[(0x9000, &nmi.bytes)], &test_chr(), false)
}

/// Every frame reads both controllers and adds up what it read, from `$20` on. `$10` counts the
/// times the program began, `$11` the frames.
#[allow(dead_code)]
fn input_probe_rom() -> Vec<u8> {
    let mut a = Asm::new(0x8000);
    a.sei().cld().ldx_imm(0xFF).txs().inc_abs(0x0010);
    a.lda_imm(0x80).sta_abs(0x2000);
    let forever = a.pc();
    a.jmp(forever);
    let mut nmi = Asm::new(0x9000);
    nmi.inc_abs(0x0011).lda_imm(1).sta_abs(0x4016).lda_imm(0).sta_abs(0x4016);
    for (port, sum) in [(0x4016u16, 0x0020u16), (0x4017, 0x0021)] {
        nmi.ldx_imm(0);
        let l = nmi.pc();
        nmi.lda_abs(port).lsr().rol_abs(0x0012).inx().cpx_imm(8).bne(l);
        nmi.lda_abs(0x0012).clc().adc_abs(sum).sta_abs(sum);
        nmi.adc_abs(sum + 2).sta_abs(sum + 2);
    }
    nmi.rti();
    build_nrom(&a, 0x8000, Some(0x9000), &[(0x9000, &nmi.bytes)], &test_chr(), false)
}

/// The smallest ROM: one bank of program, one of patterns.
fn test_rom() -> Vec<u8> {
    let mut bytes = vec![0u8; 16];
    bytes[0..4].copy_from_slice(b"NES\x1A");
    bytes[4] = 1;
    bytes[5] = 1;
    bytes.extend(vec![0xAAu8; 0x4000]);
    bytes.extend(vec![0xBBu8; 0x2000]);
    bytes
}

/// An emulator, the effects it had so far, and a trace.
struct Bench {
    emu: Emu,
    effects: Vec<Effect>,
    trace: Vec<String>,
    snapshot: Option<DebugSnapshot>,
}

impl Bench {
    fn new() -> Bench {
        Bench { emu: Emu::new(), effects: Vec::new(), trace: Vec::new(), snapshot: None }
    }

    /// Handles the commands of one round.
    fn send(&mut self, commands: Vec<EmuCommand>) {
        self.emu.begin_round();
        for command in commands {
            assert!(!self.emu.handle(command));
            self.perform();
        }
        self.emu.settle();
        self.perform();
    }

    fn perform(&mut self) {
        for effect in self.emu.take_effects() {
            match effect {
                Effect::Trace(count) => {
                    for _ in 0..count {
                        self.trace.extend(self.emu.trace_line());
                    }
                }
                Effect::ShowSnapshot => {
                    self.snapshot = self.emu.machine().map(|nes| nes.debug_snapshot());
                }
                Effect::DropSound | Effect::PlaySound => {
                    let mut sound = Vec::new();
                    self.emu.take_sound(&mut sound);
                }
                _ => {}
            }
            self.effects.push(effect);
        }
    }

    fn start_paused() -> Bench {
        let mut bench = Bench::new();
        bench.send(vec![
            EmuCommand::LoadRom(test_rom()),
            EmuCommand::Pause,
            EmuCommand::SetDebugEnabled(true),
        ]);
        bench
    }

    /// A ROM that is sensitive to input and reset, paused.
    fn start_probe_paused() -> Bench {
        let mut bench = Bench::new();
        bench.send(vec![EmuCommand::LoadRom(input_probe_rom()), EmuCommand::Pause]);
        bench.effects.clear();
        bench
    }

    fn snapshot(&self) -> DebugSnapshot {
        self.snapshot.clone().unwrap()
    }

    fn events(&mut self) -> Vec<EmuEvent> {
        let effects: Vec<Effect> = self.effects.drain(..).collect();
        effects
            .into_iter()
            .filter_map(|e| match e {
                Effect::Send(event) => Some(event),
                _ => None,
            })
            .collect()
    }
}

fn errors(events: &[EmuEvent]) -> Vec<String> {
    events
        .iter()
        .filter_map(|e| match e {
            EmuEvent::Error(notice) => Some(notice.message()),
            _ => None,
        })
        .collect()
}

fn sessions(events: &[EmuEvent]) -> Vec<SessionStatus> {
    events
        .iter()
        .filter_map(|e| match e {
            EmuEvent::Session(s) => Some(*s),
            _ => None,
        })
        .collect()
}

fn steps(n: usize) -> Vec<EmuCommand> {
    vec![EmuCommand::StepFrame; n]
}

/// Player 1 holds A for ten frames, resets, ten more, then player 2 holds up and B for twenty.
fn record_script(bench: &mut Bench) -> Vec<u8> {
    let mut commands = vec![
        EmuCommand::StartRecording,
        EmuCommand::SetInput(0, Buttons::a()),
    ];
    commands.extend(steps(10));
    commands.push(EmuCommand::Reset);
    commands.extend(steps(10));
    commands.push(EmuCommand::SetInput(1, Buttons::up() | Buttons::b()));
    commands.extend(steps(20));
    commands.push(EmuCommand::StopRecording);
    bench.send(commands);
    bench
        .events()
        .into_iter()
        .find_map(|e| match e {
            EmuEvent::RecordingFinished { bytes, frames } => {
                assert_eq!(frames, 40);
                Some(bytes)
            }
            _ => None,
        })
        .expect("a recording ends with its file")
}

fn recording(rom: &[u8], interval: u32, inputs: &[FrameInput]) -> Vec<u8> {
    let mut nes = Nes::from_rom(rom).unwrap();
    let mut recorder = ReplayRecorder::new(&nes, interval).unwrap();
    for input in inputs {
        nes.run_frame(*input);
        recorder.record_frame(*input, &nes).unwrap();
    }
    recorder.finish(&nes).unwrap().encode()
}

#[test]
fn emu_thread_streams_real_debug_snapshots_while_running() {
    let mut bench = Bench::new();
    bench.send(vec![EmuCommand::LoadRom(test_rom()), EmuCommand::SetDebugEnabled(true)]);
    for _ in 0..2 {
        assert!(bench.emu.running());
        assert!(bench.emu.tick_frame());
        bench.perform();
    }
    let snap = bench.snapshot();
    assert_ne!(snap, DebugSnapshot::default());
    assert!(snap.cpu_cycles > 0);
    assert!(snap.frame_count >= 2, "快照的幀數 {}", snap.frame_count);
    assert!(snap.ppu_frame >= 1, "PPU 已經跑過至少一幀");
}

#[test]
fn step_instruction_while_paused_updates_snapshot() {
    let mut bench = Bench::start_paused();
    let before = bench.snapshot();
    bench.send(vec![EmuCommand::StepInstruction]);
    let after = bench.snapshot();
    assert!(after.cpu_cycles > before.cpu_cycles);
    assert_ne!(after.cpu_pc, before.cpu_pc);
    assert_eq!(after.frame_count, before.frame_count, "單步指令不算一幀");
}

#[test]
fn step_frame_keeps_frame_event_and_snapshot_consistent() {
    let mut bench = Bench::start_paused();
    let before = bench.snapshot();
    bench.events();
    bench.send(steps(2));
    let after = bench.snapshot();
    assert_eq!(after.frame_count, before.frame_count + 2);
    let last_event_frame = bench
        .events()
        .into_iter()
        .filter_map(|e| match e {
            EmuEvent::FrameAdvanced(f) => Some(f),
            _ => None,
        })
        .next_back();
    assert_eq!(last_event_frame, Some(after.frame_count));
}

#[test]
fn step_commands_are_rejected_while_running() {
    let mut bench = Bench::new();
    bench.send(vec![
        EmuCommand::LoadRom(test_rom()),
        EmuCommand::StepInstruction,
        EmuCommand::StepFrame,
    ]);
    let errors = errors(&bench.events());
    assert_eq!(errors.len(), 2);
    assert_eq!(errors[0], "單步/trace 只能在暫停狀態下使用");
}

#[test]
fn trace_to_file_writes_n_lines_and_advances_state() {
    let mut bench = Bench::start_paused();
    let before = bench.snapshot();
    bench.send(vec![EmuCommand::TraceToFile { count: 25 }]);
    let after = bench.snapshot();
    assert_eq!(bench.trace.len(), 25);
    assert!(bench.trace[0].starts_with(&format!("{:04X}", before.cpu_pc)));
    assert!(after.cpu_cycles > before.cpu_cycles);
    assert!(bench.effects.iter().any(|e| matches!(e, Effect::Trace(25))));
}

#[test]
fn ppu_views_are_only_produced_while_requested() {
    let mut bench = Bench::start_paused();
    assert!(!bench.effects.iter().any(|e| matches!(e, Effect::ShowViews(_))));
    bench.send(vec![EmuCommand::SetDebugViews(Some(2))]);
    assert!(bench.effects.iter().any(|e| matches!(e, Effect::ShowViews(2))), "要求後應立即產生");
    let views = bench.emu.machine().unwrap().debug_ppu_views(2);
    assert_eq!(views.pattern_tables[0].width, 128);
    assert_eq!(views.nametables[3].height, 240);

    bench.send(vec![EmuCommand::SetDebugViews(None)]);
    bench.effects.clear();
    bench.send(steps(1));
    assert!(!bench.effects.iter().any(|e| matches!(e, Effect::ShowViews(_))), "關閉後不該有新影像");
}

#[test]
fn ppu_views_update_immediately_when_stepping_while_paused() {
    let mut bench = Bench::start_paused();
    bench.send(vec![EmuCommand::SetDebugViews(Some(0))]);
    bench.effects.clear();
    bench.send(vec![EmuCommand::StepInstruction]);
    assert!(bench.effects.iter().any(|e| matches!(e, Effect::ShowViews(0))), "單步之後應立即有新影像");
}

#[test]
fn running_machines_show_their_memory_every_third_frame() {
    let mut bench = Bench::new();
    bench.send(vec![EmuCommand::LoadRom(test_rom()), EmuCommand::SetDebugViews(Some(1))]);
    bench.effects.clear();
    for _ in 0..7 {
        bench.emu.tick_frame();
    }
    bench.perform();
    let shown = bench.effects.iter().filter(|e| matches!(e, Effect::ShowViews(1))).count();
    assert_eq!(shown, 2);
    assert_eq!(bench.emu.take_fps_frames(), 7);
    assert_eq!(bench.emu.take_fps_frames(), 0);
}

#[test]
fn paused_stepping_does_not_feed_the_audio_ring() {
    let mut bench = Bench::new();
    bench.send(vec![EmuCommand::LoadRom(test_rom()), EmuCommand::Pause]);
    bench.effects.clear();
    bench.send(steps(5));
    assert!(!bench.effects.iter().any(|e| matches!(e, Effect::PlaySound)), "暫停時單步的音訊不進緩衝區");
    assert!(bench.effects.iter().any(|e| matches!(e, Effect::DropSound)));
    bench.send(vec![EmuCommand::Resume]);
    for _ in 0..3 {
        bench.emu.tick_frame();
        bench.perform();
    }
    assert_eq!(bench.emu.machine().unwrap().frame_count(), 8, "單步 5 幀之後，繼續跑到第 8 幀");
    assert!(bench.effects.iter().any(|e| matches!(e, Effect::PlaySound)), "繼續之後又有取樣");
}

#[test]
fn recording_and_replaying_round_trip_through_the_emu_thread() {
    let mut bench = Bench::start_probe_paused();
    bench.send(vec![EmuCommand::StartRecording]);
    let started = bench.events();
    assert_eq!(sessions(&started).last(), Some(&SessionStatus::Recording { frames: 0 }));
    bench.send(vec![EmuCommand::StopRecording]);
    bench.events();

    let bytes = record_script(&mut bench);
    let replay = Replay::decode(&bytes).unwrap();
    assert_eq!(replay.total_frames, 40);
    assert_eq!(replay.rom_id, RomId::of_file(&input_probe_rom()));
    let inputs = replay.inputs();
    assert_eq!(inputs[0].p1, Buttons::a());
    assert!(
        !inputs[9].reset && inputs[10].reset && !inputs[11].reset,
        "reset 在 Reset 指令之後的第一幀"
    );
    assert_eq!(inputs[39].p2, Buttons::up() | Buttons::b());
    assert_eq!(inputs.iter().filter(|i| i.reset).count(), 1);

    bench.send(vec![
        EmuCommand::StartReplay(bytes),
        EmuCommand::SetInput(0, Buttons::all()),
    ]);
    let events = bench.events();
    assert!(errors(&events).is_empty(), "{:?}", errors(&events));
    assert_eq!(
        sessions(&events).last(),
        Some(&SessionStatus::Playing { frame: 0, total: 40, verified: 1, checkpoints: 2 })
    );
    let mut commands = steps(40);
    commands.push(EmuCommand::ExportState);
    bench.send(commands);
    let events = bench.events();
    assert!(errors(&events).is_empty(), "{:?}", errors(&events));
    assert_eq!(
        sessions(&events).last(),
        Some(&SessionStatus::Finished { total: 40, checkpoints: 2 })
    );
    assert!(events.iter().any(|e| matches!(e, EmuEvent::Paused(true))));

    let state = events
        .iter()
        .find_map(|e| match e {
            EmuEvent::StateExported(b) => Some(b.clone()),
            _ => None,
        })
        .unwrap();
    let end = nes_core::state::decode(&state).unwrap();
    assert_eq!(end.peek(0x0010), 2);
    assert!(end.peek(0x0011) >= 38);
    assert_eq!(end.frame_count(), 40);
}

#[test]
fn replay_mismatch_pauses_and_reports_the_suspect_frames() {
    let mut bench = Bench::start_probe_paused();
    let bytes = record_script(&mut bench);
    let mut replay = Replay::decode(&bytes).unwrap();
    let mut inputs = replay.inputs();
    inputs[24].p1 = Buttons::from_bits_truncate(inputs[24].p1.bits() ^ Buttons::select().bits());
    replay.runs = Replay::compress(&inputs);

    let mut commands = vec![EmuCommand::StartReplay(replay.encode())];
    commands.extend(steps(40));
    bench.send(commands);
    let events = bench.events();
    let mismatch = sessions(&events)
        .into_iter()
        .find_map(|s| match s {
            SessionStatus::Mismatch(m) => Some(m),
            _ => None,
        })
        .expect("竄改過的 replay 必須回報檢查點不符");
    assert!(mismatch.suspect_frames().contains(&25), "{}", mismatch.message());
    assert_eq!(mismatch.message(), "第 40 幀的檢查點不符：分歧發生在第 1–40 幀之間");
    assert!(events.iter().any(|e| matches!(e, EmuEvent::Paused(true))));
    assert!(!bench.emu.busy());
}

#[test]
fn restricted_operations_are_refused_while_recording() {
    let mut bench = Bench::start_probe_paused();
    let mut commands = vec![EmuCommand::StartRecording, EmuCommand::SaveState];
    commands.extend(steps(3));
    commands.extend([
        EmuCommand::LoadState,
        EmuCommand::StepInstruction,
        EmuCommand::TraceToFile { count: 5 },
        EmuCommand::LoadRom(rendering_rom()),
        EmuCommand::StartRecording,
        EmuCommand::StartReplay(vec![1, 2, 3]),
    ]);
    commands.extend(steps(2));
    commands.push(EmuCommand::StopRecording);
    bench.send(commands);

    let events = bench.events();
    let errs = errors(&events);
    assert_eq!(errs.len(), 6, "{errs:#?}");
    assert!(errs.iter().all(|m| m.contains("錄製中")), "{errs:#?}");
    assert!(
        errs[0].contains("讀取存檔") && errs[0].contains("開機狀態"),
        "{}",
        errs[0]
    );
    assert!(bench.trace.is_empty(), "被拒絕的 trace 不得寫檔");
    let bytes = events
        .iter()
        .find_map(|e| match e {
            EmuEvent::RecordingFinished { bytes, frames } => {
                assert_eq!(*frames, 5, "3 + 2 個單步的幀，被拒絕的操作沒有多跑任何東西");
                Some(bytes.clone())
            }
            _ => None,
        })
        .expect("錄製結束");
    let replay = Replay::decode(&bytes).unwrap();
    assert!(verify(&input_probe_rom(), replay).is_ok());

    bench.send(vec![EmuCommand::LoadState, EmuCommand::StepInstruction]);
    assert!(errors(&bench.events()).is_empty());
}

#[test]
fn restricted_operations_are_refused_while_replaying() {
    let mut bench = Bench::start_probe_paused();
    let bytes = record_script(&mut bench);
    bench.send(vec![
        EmuCommand::StartReplay(bytes),
        EmuCommand::LoadState,
        EmuCommand::StepInstruction,
        EmuCommand::Reset,
        EmuCommand::LoadRom(rendering_rom()),
        EmuCommand::StartRecording,
    ]);
    let errs = errors(&bench.events());
    assert_eq!(errs.len(), 5, "{errs:#?}");
    assert!(errs.iter().all(|m| m.contains("播放 replay 中")), "{errs:#?}");
    assert_eq!(
        errs[2],
        "播放 replay 中不能按 reset（reset 也是 replay 輸入的一部分）：它會破壞「從開機狀態依輸入序列執行」的前提"
    );
}

#[test]
fn replay_of_another_rom_is_refused_with_a_readable_message() {
    let mut bench = Bench::start_probe_paused();
    let bytes = record_script(&mut bench);
    bench.send(vec![EmuCommand::LoadRom(rendering_rom()), EmuCommand::StartReplay(bytes)]);
    let events = bench.events();
    let errs = errors(&events);
    assert_eq!(errs.len(), 1, "{errs:#?}");
    assert!(errs[0].contains("另一份 ROM"), "{}", errs[0]);
    assert!(errs[0].contains(&RomId::of_file(&input_probe_rom()).short()));
    assert!(errs[0].contains(&RomId::of_file(&rendering_rom()).short()));
    assert!(
        sessions(&events).iter().all(|s| matches!(s, SessionStatus::Idle)),
        "沒有進入播放"
    );

    bench.send(vec![EmuCommand::StartReplay(b"not a replay".to_vec())]);
    let errs = errors(&bench.events());
    assert!(errs[0].contains("replay 檔案無效"), "{}", errs[0]);
}

fn boot_count(bench: &mut Bench) -> (u8, u64) {
    bench.send(vec![EmuCommand::ExportState]);
    let state = bench
        .events()
        .into_iter()
        .find_map(|e| match e {
            EmuEvent::StateExported(b) => Some(b),
            _ => None,
        })
        .unwrap();
    let nes = nes_core::state::decode(&state).unwrap();
    (nes.peek(0x0010), nes.frame_count())
}

#[test]
fn reset_is_applied_through_the_next_frame_input() {
    let mut bench = Bench::start_probe_paused();
    bench.send(steps(15));
    assert_eq!(boot_count(&mut bench), (1, 15));
    bench.send(vec![EmuCommand::Reset]);
    assert_eq!(boot_count(&mut bench), (1, 15), "reset 排隊中，還沒有作用");
    bench.send(steps(1));
    assert_eq!(boot_count(&mut bench), (2, 16), "下一幀開始前 soft reset");
    bench.send(steps(4));
    assert_eq!(boot_count(&mut bench), (2, 20), "只 reset 一次");
}

#[test]
fn max_speed_playback_verifies_the_whole_replay_and_pauses_at_the_end() {
    let rom = input_probe_rom();
    let inputs: Vec<FrameInput> = (0..900u32)
        .map(|i| {
            let mut input = FrameInput::new(
                Buttons::from_bits_truncate((i / 5) as u8),
                Buttons::from_bits_truncate((i / 3) as u8),
            );
            input.reset = i == 400;
            input
        })
        .collect();
    let bytes = recording(&rom, 60, &inputs);

    let mut bench = Bench::new();
    bench.send(vec![
        EmuCommand::LoadRom(rom),
        EmuCommand::SetPlaybackSpeed(PlaybackSpeed::Max),
        EmuCommand::StartReplay(bytes),
    ]);
    assert!(bench.emu.max_speed_playback() && bench.emu.running());
    let mut ran = 0u64;
    while bench.emu.rush_frame(ran % 50 == 0).unwrap() {
        ran += 1;
    }
    bench.emu.end_rush(ran);
    bench.perform();
    let events = bench.events();
    assert!(errors(&events).is_empty());
    assert!(sessions(&events).contains(&SessionStatus::Finished { total: 900, checkpoints: 16 }));
    assert!(bench.emu.paused());
    assert!(bench.emu.machine().unwrap().output_enabled());
}

#[test]
fn double_speed_playback_also_verifies_every_checkpoint() {
    let rom = input_probe_rom();
    let inputs: Vec<FrameInput> = (0..60u32)
        .map(|i| FrameInput::new(Buttons::from_bits_truncate(i as u8), Buttons::a()))
        .collect();
    let bytes = recording(&rom, 20, &inputs);

    let mut bench = Bench::new();
    bench.send(vec![
        EmuCommand::LoadRom(rom),
        EmuCommand::SetPlaybackSpeed(PlaybackSpeed::X2),
        EmuCommand::StartReplay(bytes),
    ]);
    assert_eq!(bench.emu.frame_period(1_000), 500);
    while bench.emu.tick_frame() {}
    bench.perform();
    assert!(bench.effects.iter().all(|e| !matches!(e, Effect::PlaySound)), "without sound");
    let events = bench.events();
    assert!(sessions(&events).contains(&SessionStatus::Finished { total: 60, checkpoints: 4 }));
    assert_eq!(bench.emu.frame_period(1_000), 1_000);
}

#[test]
fn stopping_a_replay_returns_to_normal_execution() {
    let mut bench = Bench::start_probe_paused();
    let bytes = record_script(&mut bench);
    let mut commands = vec![EmuCommand::StartReplay(bytes)];
    commands.extend(steps(5));
    commands.push(EmuCommand::StopReplay);
    bench.send(commands);
    let events = bench.events();
    assert_eq!(sessions(&events).last(), Some(&SessionStatus::Idle));
    bench.send(vec![EmuCommand::StepInstruction]);
    assert!(errors(&bench.events()).is_empty());
}

#[test]
fn commands_without_a_machine_do_nothing_or_say_so() {
    let mut bench = Bench::new();
    bench.send(vec![
        EmuCommand::SaveState,
        EmuCommand::LoadState,
        EmuCommand::ExportState,
        EmuCommand::Reset,
        EmuCommand::StartRecording,
        EmuCommand::StopRecording,
        EmuCommand::StartReplay(Vec::new()),
        EmuCommand::StopReplay,
        EmuCommand::LoadRom(vec![1, 2, 3]),
    ]);
    let errs = errors(&bench.events());
    assert_eq!(
        errs,
        [
            "尚未載入 ROM，無法錄製",
            "尚未載入 ROM：請先載入 replay 對應的 ROM",
            "無法載入 ROM: ROM 檔案過小，不足以包含 16 位元組的 iNES header",
        ]
    );
    assert!(!bench.emu.running());
    assert!(bench.emu.tick_frame());
    assert!(bench.emu.rush_frame(true).is_none());
    assert!(bench.emu.handle(EmuCommand::Quit));
}

#[test]
fn a_state_of_another_rom_is_refused_in_memory_too() {
    let mut bench = Bench::start_probe_paused();
    bench.send(vec![
        EmuCommand::SaveState,
        EmuCommand::LoadRom(rendering_rom()),
        EmuCommand::LoadState,
    ]);
    let errs = errors(&bench.events());
    assert_eq!(errs.len(), 1);
    assert!(errs[0].starts_with("存檔屬於不同的 ROM（目前 ROM 雜湊 0x"), "{}", errs[0]);
}

// ---- replays by themselves ------------------------------------------------------

#[test]
fn runs_hold_the_inputs_they_were_made_of() {
    let a = FrameInput::new(Buttons::a(), Buttons::empty());
    let b = FrameInput::new(Buttons::b(), Buttons::empty());
    let inputs = [a, a, a, b, a, a.with_reset(), a];
    let runs = Replay::compress(&inputs);
    assert_eq!(runs.iter().map(|r| r.frames).collect::<Vec<_>>(), [3, 1, 1, 1, 1]);
    let bytes = recording(&input_probe_rom(), 3, &inputs);
    let replay = Replay::decode(&bytes).unwrap();
    assert_eq!(replay.inputs(), inputs);
    assert_eq!(replay.runs, runs);
    let frames: Vec<u32> = replay.checkpoints.iter().map(|c| c.frame).collect();
    assert_eq!(frames, [0, 3, 6, 7]);
    assert!(replay.is_consistent());
}

#[test]
fn replay_files_are_read_back_and_bad_ones_refused() {
    let bytes = recording(&input_probe_rom(), 2, &[FrameInput::none(); 5]);
    let replay = Replay::decode(&bytes).unwrap();
    assert_eq!(replay.encode(), bytes);
    assert_eq!(&bytes[..8], b"NESR\x01\x00\x03\x00");

    assert_eq!(Replay::decode(b"NES").unwrap_err(), ReplayError::NotAReplay);
    let mut other = bytes.clone();
    other[4] = 9;
    assert_eq!(
        Replay::decode(&other).unwrap_err(),
        ReplayError::FormatMismatch { expected: 1, found: 9 }
    );
    assert_eq!(
        Replay::decode(&other).unwrap_err().message(),
        "replay 格式版本不符（目前 1，檔案 9）"
    );
    assert_eq!(
        Replay::decode(&bytes[..bytes.len() - 1]).unwrap_err(),
        ReplayError::Malformed
    );
    let mut wrong = Replay::decode(&bytes).unwrap();
    wrong.total_frames += 1;
    assert!(!wrong.is_consistent());
    assert_eq!(Replay::decode(&wrong.encode()).unwrap_err(), ReplayError::Malformed);
}

#[test]
fn recorders_and_players_refuse_what_does_not_fit() {
    let rom = input_probe_rom();
    let mut nes = Nes::from_rom(&rom).unwrap();
    assert_eq!(ReplayRecorder::new(&nes, 0).unwrap_err(), ReplayError::ZeroInterval);
    let mut recorder = ReplayRecorder::new(&nes, 4).unwrap();
    assert_eq!(
        recorder.record_frame(FrameInput::none(), &nes).unwrap_err(),
        ReplayError::FrameMismatch { expected: 1, actual: 0 }
    );
    nes.run_frame(FrameInput::none());
    assert_eq!(
        ReplayRecorder::new(&nes, 4).unwrap_err(),
        ReplayError::NotAtPowerOn { frames: 1 }
    );
    assert_eq!(
        recorder.clone().finish(&nes).unwrap_err(),
        ReplayError::FrameMismatch { expected: 0, actual: 1 }
    );
    recorder.record_frame(FrameInput::none(), &nes).unwrap();
    assert_eq!(recorder.frames(), 1);
    let replay = recorder.finish(&nes).unwrap();
    assert_eq!(
        ReplayPlayer::new(replay.clone(), &nes).unwrap_err(),
        ReplayError::NotAtPowerOn { frames: 1 }
    );

    let fresh = Nes::from_rom(&rom).unwrap();
    let mut newer = replay.clone();
    newer.core_version += 1;
    assert_eq!(
        ReplayPlayer::new(newer, &fresh).unwrap_err(),
        ReplayError::CoreMismatch { expected: 3, found: 4 }
    );
    let mut other = replay.clone();
    other.checkpoints[0].fingerprint ^= 1;
    assert!(matches!(
        ReplayPlayer::new(other, &fresh).unwrap_err(),
        ReplayError::StartMismatch { .. }
    ));
    let mut empty = replay.clone();
    empty.checkpoints.clear();
    assert_eq!(ReplayPlayer::new(empty, &fresh).unwrap_err(), ReplayError::Malformed);
}

#[test]
fn verifying_reports_the_rom_the_replay_and_the_first_mismatch() {
    let rom = input_probe_rom();
    let inputs: Vec<FrameInput> = (0..12u8)
        .map(|i| FrameInput::new(Buttons::from_bits_truncate(i * 20), Buttons::empty()))
        .collect();
    let replay = Replay::decode(&recording(&rom, 4, &inputs)).unwrap();
    assert_eq!(verify(&rom, replay.clone()).unwrap(), 4);
    assert!(matches!(verify(&[], replay.clone()), Err(VerifyError::Rom(_))));
    assert!(matches!(
        verify(&rendering_rom(), replay.clone()),
        Err(VerifyError::Replay(ReplayError::RomMismatch { .. }))
    ));
    let mut changed = inputs.clone();
    changed[5].p2 = Buttons::a();
    let mut tampered = replay;
    tampered.runs = Replay::compress(&changed);
    let Err(VerifyError::Mismatch(m)) = verify(&rom, tampered) else {
        panic!("a changed input is found out");
    };
    assert_eq!((m.frame, m.last_good_frame), (8, Some(4)));
    assert!(m.suspect_frames().contains(&6));
    assert_eq!(m.suspect_from(), 5);
}

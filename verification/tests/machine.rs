//! The whole machine.

use nes_core::apu::output::{CHANNEL_NOISE, CHANNEL_TRIANGLE};
use nes_core::cartridge::ines::HEADER_SIZE;
use nes_core::cartridge::{Uxrom, CHR_BANK_SIZE, PRG_BANK_SIZE};
use nes_core::cpu::RESET_VECTOR;
use nes_core::frame::WIDTH;
use nes_core::ppu::palette::SYSTEM_PALETTE;
use nes_core::ppu::STATUS_VBLANK;
use nes_core::state::{HEADER_LEN, STATE_MAGIC};
use nes_core::{
    Buttons, DebugSnapshot, FrameInput, Mapper, Nes, RomError, StateError, StateHeader,
    CORE_BEHAVIOR_VERSION, STATE_FORMAT_VERSION,
};

/// A small assembler for test programs.
#[allow(dead_code)]
struct Asm {
    origin: u16,
    bytes: Vec<u8>,
}

#[allow(dead_code)]
impl Asm {
    fn new(origin: u16) -> Asm {
        Asm { origin, bytes: Vec::new() }
    }

    fn pc(&self) -> u16 {
        self.origin + self.bytes.len() as u16
    }

    fn op(&mut self, bytes: &[u8]) -> &mut Asm {
        self.bytes.extend_from_slice(bytes);
        self
    }

    fn op_abs(&mut self, opcode: u8, addr: u16) -> &mut Asm {
        self.op(&[opcode, addr as u8, (addr >> 8) as u8])
    }

    fn branch(&mut self, opcode: u8, target: u16) -> &mut Asm {
        let next = self.pc().wrapping_add(2);
        self.op(&[opcode, target.wrapping_sub(next) as u8])
    }

    fn jmp(&mut self, addr: u16) -> &mut Asm {
        self.op_abs(0x4C, addr)
    }

    fn lda_imm(&mut self, v: u8) -> &mut Asm {
        self.op(&[0xA9, v])
    }

    fn ldx_imm(&mut self, v: u8) -> &mut Asm {
        self.op(&[0xA2, v])
    }

    fn and_imm(&mut self, v: u8) -> &mut Asm {
        self.op(&[0x29, v])
    }

    fn cmp_imm(&mut self, v: u8) -> &mut Asm {
        self.op(&[0xC9, v])
    }

    fn cpx_imm(&mut self, v: u8) -> &mut Asm {
        self.op(&[0xE0, v])
    }

    fn lda_abs(&mut self, addr: u16) -> &mut Asm {
        self.op_abs(0xAD, addr)
    }

    fn lda_abs_x(&mut self, addr: u16) -> &mut Asm {
        self.op_abs(0xBD, addr)
    }

    fn sta_abs(&mut self, addr: u16) -> &mut Asm {
        self.op_abs(0x8D, addr)
    }

    fn sta_abs_x(&mut self, addr: u16) -> &mut Asm {
        self.op_abs(0x9D, addr)
    }

    fn adc_abs(&mut self, addr: u16) -> &mut Asm {
        self.op_abs(0x6D, addr)
    }

    fn inc_abs(&mut self, addr: u16) -> &mut Asm {
        self.op_abs(0xEE, addr)
    }

    fn rol_abs(&mut self, addr: u16) -> &mut Asm {
        self.op_abs(0x2E, addr)
    }

    fn bit_abs(&mut self, addr: u16) -> &mut Asm {
        self.op_abs(0x2C, addr)
    }

    fn bne(&mut self, target: u16) -> &mut Asm {
        self.branch(0xD0, target)
    }

    fn beq(&mut self, target: u16) -> &mut Asm {
        self.branch(0xF0, target)
    }

    fn bpl(&mut self, target: u16) -> &mut Asm {
        self.branch(0x10, target)
    }

    fn bvs(&mut self, target: u16) -> &mut Asm {
        self.branch(0x70, target)
    }

    fn bvc(&mut self, target: u16) -> &mut Asm {
        self.branch(0x50, target)
    }

    fn inx(&mut self) -> &mut Asm {
        self.op(&[0xE8])
    }

    fn txa(&mut self) -> &mut Asm {
        self.op(&[0x8A])
    }

    fn txs(&mut self) -> &mut Asm {
        self.op(&[0x9A])
    }

    fn pha(&mut self) -> &mut Asm {
        self.op(&[0x48])
    }

    fn pla(&mut self) -> &mut Asm {
        self.op(&[0x68])
    }

    fn lsr(&mut self) -> &mut Asm {
        self.op(&[0x4A])
    }

    fn clc(&mut self) -> &mut Asm {
        self.op(&[0x18])
    }

    fn cli(&mut self) -> &mut Asm {
        self.op(&[0x58])
    }

    fn sei(&mut self) -> &mut Asm {
        self.op(&[0x78])
    }

    fn cld(&mut self) -> &mut Asm {
        self.op(&[0xD8])
    }

    fn rti(&mut self) -> &mut Asm {
        self.op(&[0x40])
    }

    fn set_ppu_addr(&mut self, addr: u16) -> &mut Asm {
        self.lda_imm((addr >> 8) as u8)
            .sta_abs(0x2006)
            .lda_imm(addr as u8)
            .sta_abs(0x2006)
    }
}

/// A ROM with 32 KB of program at `$8000` and 8 KB of patterns.
#[allow(dead_code)]
fn build_nrom_irq(
    code: &Asm,
    reset: u16,
    nmi: Option<u16>,
    irq: Option<u16>,
    extra: &[(u16, &[u8])],
    chr: &[u8],
    vertical: bool,
) -> Vec<u8> {
    let mut rom = vec![0u8; 16];
    rom[0..4].copy_from_slice(b"NES\x1A");
    rom[4] = 2;
    rom[5] = 1;
    rom[6] = vertical as u8;
    let mut prg = vec![0u8; 0x8000];
    let start = (code.origin - 0x8000) as usize;
    prg[start..start + code.bytes.len()].copy_from_slice(&code.bytes);
    for (addr, bytes) in extra {
        let at = (*addr - 0x8000) as usize;
        prg[at..at + bytes.len()].copy_from_slice(bytes);
    }
    for (at, vector) in [
        (0x7FFA, nmi.unwrap_or(reset)),
        (0x7FFC, reset),
        (0x7FFE, irq.unwrap_or(reset)),
    ] {
        prg[at] = vector as u8;
        prg[at + 1] = (vector >> 8) as u8;
    }
    rom.extend_from_slice(&prg);
    let mut patterns = vec![0u8; 0x2000];
    patterns[..chr.len()].copy_from_slice(chr);
    rom.extend_from_slice(&patterns);
    rom
}

#[allow(dead_code)]
fn build_nrom(
    code: &Asm,
    reset: u16,
    nmi: Option<u16>,
    extra: &[(u16, &[u8])],
    chr: &[u8],
    vertical: bool,
) -> Vec<u8> {
    build_nrom_irq(code, reset, nmi, None, extra, chr, vertical)
}

/// Patterns: tile 0 is empty, tiles 1 to 3 are solid in their colour, tile 4 is striped, tile 5 has
/// its left half in colour 3 above and is solid below, tile 6 is solid above and empty below, and
/// tile 7 is empty.
#[allow(dead_code)]
fn test_chr() -> Vec<u8> {
    let mut chr = vec![0u8; 0x2000];
    for row in 0..8usize {
        chr[16 + row] = 0xFF;
        chr[2 * 16 + 8 + row] = 0xFF;
        chr[3 * 16 + row] = 0xFF;
        chr[3 * 16 + 8 + row] = 0xFF;
        chr[4 * 16 + row] = 0xAA;
        let left = if row < 4 { 0xF0 } else { 0xFF };
        chr[5 * 16 + row] = left;
        chr[5 * 16 + 8 + row] = left;
        let upper = if row < 4 { 0xFF } else { 0x00 };
        chr[6 * 16 + row] = upper;
        chr[6 * 16 + 8 + row] = upper;
    }
    chr
}

/// The first byte of every page of the first PRG bank; the next banks count up.
#[allow(dead_code)]
const PRG_MARK: u8 = 0x40;

/// The bytes of the first 4 KB of CHR-ROM; the next ones count up.
#[allow(dead_code)]
const CHR_MARK: u8 = 0x80;

/// A ROM with a mapper. The program is in the last bank, and every other byte says which bank it is
/// from.
#[allow(dead_code)]
fn build_mapper_rom(
    mapper: u8,
    prg_banks: usize,
    chr_banks_8k: usize,
    code: &Asm,
    extra: &[(u16, &[u8])],
) -> Vec<u8> {
    let mut rom = vec![0u8; 16];
    rom[0..4].copy_from_slice(b"NES\x1A");
    rom[4] = prg_banks as u8;
    rom[5] = chr_banks_8k as u8;
    rom[6] = mapper << 4;
    let mut prg = Vec::new();
    for bank in 0..prg_banks {
        prg.extend(vec![PRG_MARK + bank as u8; 0x4000]);
    }
    let last = (prg_banks - 1) * 0x4000;
    let place = |addr: u16| {
        if addr >= 0xC000 {
            last + (addr - 0xC000) as usize
        } else {
            (addr - 0x8000) as usize
        }
    };
    let at = place(code.origin);
    prg[at..at + code.bytes.len()].copy_from_slice(&code.bytes);
    for (addr, bytes) in extra {
        let at = place(*addr);
        prg[at..at + bytes.len()].copy_from_slice(bytes);
    }
    for vector in [0xFFFAu16, 0xFFFC, 0xFFFE] {
        let at = place(vector);
        prg[at] = code.origin as u8;
        prg[at + 1] = (code.origin >> 8) as u8;
    }
    rom.extend_from_slice(&prg);
    for block in 0..2 * chr_banks_8k {
        rom.extend(vec![CHR_MARK + block as u8; 0x1000]);
    }
    rom
}

/// A picture with background, sprites and scrolling. The NMI handler counts in `$00`.
#[allow(dead_code)]
fn rendering_rom() -> Vec<u8> {
    let mut a = Asm::new(0x8000);
    a.sei().cld().ldx_imm(0xFF).txs();
    a.set_ppu_addr(0x3F00);
    for color in [
        0x0F, 0x16, 0x2A, 0x30, 0x0F, 0x11, 0x21, 0x31, 0x0F, 0x15, 0x25, 0x35, 0x0F, 0x19, 0x29,
        0x39, 0x0F, 0x06, 0x1A, 0x30, 0x0F, 0x12, 0x22, 0x32,
    ] {
        a.lda_imm(color).sta_abs(0x2007);
    }
    a.set_ppu_addr(0x2000).ldx_imm(0);
    for _ in 0..4 {
        let l = a.pc();
        a.txa().and_imm(0x07).sta_abs(0x2007).inx().bne(l);
    }
    a.ldx_imm(0);
    let l = a.pc();
    a.txa().and_imm(0x7F).sta_abs_x(0x0200).inx().bne(l);
    a.lda_imm(0).sta_abs(0x2003).lda_imm(0x02).sta_abs(0x4014);
    a.lda_imm(0).sta_abs(0x2005).sta_abs(0x2005);
    a.lda_imm(0x80).sta_abs(0x2000).lda_imm(0x1E).sta_abs(0x2001);
    let forever = a.pc();
    a.inc_abs(0x0001).jmp(forever);
    let mut nmi = Asm::new(0x9000);
    nmi.pha()
        .inc_abs(0x0000)
        .lda_abs(0x0000)
        .sta_abs(0x2005)
        .lda_imm(0)
        .sta_abs(0x2005)
        .pla()
        .rti();
    build_nrom(&a, 0x8000, Some(0x9000), &[(0x9000, &nmi.bytes)], &test_chr(), false)
}

/// What the APU probe does.
#[allow(dead_code)]
#[derive(Clone, Copy)]
struct ApuProbe {
    frame_counter: u8,
    ack_frame_irq: bool,
    dmc: bool,
}

#[allow(dead_code)]
impl ApuProbe {
    const DEFAULT: ApuProbe = ApuProbe { frame_counter: 0x00, ack_frame_irq: true, dmc: true };
}

/// All channels, the frame interrupt and the DMC interrupt. The handler counts in `$02`, the main
/// loop in `$00`.
#[allow(dead_code)]
fn apu_probe_rom(probe: ApuProbe) -> Vec<u8> {
    let mut a = Asm::new(0x8000);
    a.sei().cld().ldx_imm(0xFF).txs();
    for (reg, value) in [
        (0x4015u16, 0x0Fu8),
        (0x4000, 0x84),
        (0x4001, 0x9A),
        (0x4002, 0x55),
        (0x4003, 0x0A),
        (0x4004, 0x42),
        (0x4005, 0x00),
        (0x4006, 0x80),
        (0x4007, 0x19),
        (0x4008, 0x40),
        (0x400A, 0x33),
        (0x400B, 0x22),
        (0x400C, 0x05),
        (0x400E, 0x07),
        (0x400F, 0x28),
        (0x4017, probe.frame_counter),
    ] {
        a.lda_imm(value).sta_abs(reg);
    }
    if probe.dmc {
        for (reg, value) in [(0x4010u16, 0x8Fu8), (0x4012, 0x00), (0x4013, 0x01), (0x4015, 0x1F)] {
            a.lda_imm(value).sta_abs(reg);
        }
    }
    a.cli();
    let forever = a.pc();
    a.inc_abs(0x0000).jmp(forever);
    let mut irq = Asm::new(0x9000);
    irq.pha().inc_abs(0x0002);
    if probe.ack_frame_irq {
        irq.lda_abs(0x4015);
    }
    if probe.dmc {
        irq.lda_imm(0x1F).sta_abs(0x4015);
    }
    irq.pla().rti();
    let sample: Vec<u8> = vec![
        0x3C, 0x55, 0xAA, 0x0F, 0xF0, 0x33, 0xCC, 0x5A, 0xA5, 0x3C, 0xC3, 0x99, 0x66, 0x0F, 0xF0,
        0x55, 0xAA, 0x3C,
    ];
    build_nrom_irq(
        &a,
        0x8000,
        None,
        Some(0x9000),
        &[(0x9000, &irq.bytes), (0xC000, &sample)],
        &[],
        false,
    )
}

/// Reads that cross a page, through the PPU registers.
#[allow(dead_code)]
fn dummy_read_probe_rom() -> Vec<u8> {
    let mut a = Asm::new(0x8000);
    a.sei().cld().ldx_imm(0xFF).txs();
    a.set_ppu_addr(0x2000);
    let l = a.pc();
    a.ldx_imm(0x0F).lda_abs_x(0x20F8).sta_abs(0x0030).inc_abs(0x0031);
    a.ldx_imm(0x07).sta_abs_x(0x2000).lda_abs_x(0x2000).sta_abs(0x0032).jmp(l);
    build_nrom(&a, 0x8000, None, &[], &test_chr(), false)
}

/// Always changes the registers of an MMC1.
#[allow(dead_code)]
fn mmc1_churn_rom() -> Vec<u8> {
    let mut code = Asm::new(0xE000);
    let l = code.pc();
    code.inc_abs(0x0000).lda_abs(0x0000).sta_abs(0xE000).jmp(l);
    build_mapper_rom(1, 8, 2, &code, &[])
}

/// Reports a text in the way of test ROMs: running, a signature, the text, then the result.
#[allow(dead_code)]
fn report(a: &mut Asm, text: &str, result: u8) {
    for (i, byte) in text.bytes().chain([0]).enumerate() {
        a.lda_imm(byte).sta_abs(0x6004 + i as u16);
    }
    for (addr, byte) in [(0x6001u16, 0xDEu8), (0x6002, 0xB0), (0x6003, 0x61), (0x6000, result)] {
        a.lda_imm(byte).sta_abs(addr);
    }
    let forever = a.pc();
    a.jmp(forever);
}

/// Fails unless the accumulator holds `value`.
#[allow(dead_code)]
fn expect_a(a: &mut Asm, value: u8) {
    let next = a.pc() + 2 + 2 + 3;
    a.cmp_imm(value).beq(next).jmp(0xF000);
}

/// Switches every bank of an UxROM and looks at it.
#[allow(dead_code)]
fn uxrom_test_rom() -> Vec<u8> {
    let mut fail = Asm::new(0xF000);
    report(&mut fail, "UxROM: Failed", 1);
    let mut a = Asm::new(0xE000);
    a.sei().cld().lda_imm(0x80).sta_abs(0x6000);
    for bank in 0..4u8 {
        a.lda_imm(bank).sta_abs(0x8000).lda_abs(0x8100);
        expect_a(&mut a, PRG_MARK + bank);
        a.lda_abs(0xC100);
        expect_a(&mut a, PRG_MARK + 3);
    }
    report(&mut a, "UxROM: Passed", 0);
    build_mapper_rom(2, 4, 0, &a, &[(0xF000, &fail.bytes)])
}

/// Switches every CHR bank of a CNROM and looks at it through the PPU.
#[allow(dead_code)]
fn cnrom_test_rom() -> Vec<u8> {
    let mut fail = Asm::new(0xF000);
    report(&mut fail, "CNROM: Failed", 1);
    let mut a = Asm::new(0xE000);
    a.sei().cld().lda_imm(0x80).sta_abs(0x6000);
    for bank in 0..4u8 {
        a.lda_imm(bank).sta_abs(0x8000).set_ppu_addr(0x0000);
        a.lda_abs(0x2007).lda_abs(0x2007);
        expect_a(&mut a, CHR_MARK + 2 * bank);
    }
    report(&mut a, "CNROM: Passed", 0);
    build_mapper_rom(3, 2, 4, &a, &[(0xF000, &fail.bytes)])
}

/// 一份最小可用的 NROM 測試 ROM：1x16KB PRG + 1x8KB CHR。
fn test_rom() -> Vec<u8> {
    let mut bytes = vec![0u8; HEADER_SIZE];
    bytes[0..4].copy_from_slice(b"NES\x1A");
    bytes[4] = 1; // PRG banks
    bytes[5] = 1; // CHR banks
    bytes.extend(vec![0xAAu8; PRG_BANK_SIZE]);
    bytes.extend(vec![0xBBu8; CHR_BANK_SIZE]);
    bytes
}

/// 跟 `test_rom` header 相同、但內容不同的第二份 ROM，用來測試
/// `load_state` 的 `rom_hash` 檢查。
fn other_test_rom() -> Vec<u8> {
    let mut bytes = vec![0u8; HEADER_SIZE];
    bytes[0..4].copy_from_slice(b"NES\x1A");
    bytes[4] = 1; // PRG banks
    bytes[5] = 1; // CHR banks
    bytes.extend(vec![0xCCu8; PRG_BANK_SIZE]);
    bytes.extend(vec![0xDDu8; CHR_BANK_SIZE]);
    bytes
}

fn inputs_for(n: u64) -> Vec<[Buttons; 2]> {
    (0..n)
        .map(|i| {
            let p1 = if i % 3 == 0 {
                Buttons::left()
            } else {
                Buttons::empty()
            };
            let p2 = if i % 5 == 0 {
                Buttons::a()
            } else {
                Buttons::empty()
            };
            [p1, p2]
        })
        .collect()
}

#[test]
fn save_then_load_preserves_state_hash() {
    let mut nes = Nes::from_rom(&test_rom()).unwrap();
    for input in inputs_for(10) {
        nes.run_frame(FrameInput::from(input));
    }
    let before = nes.state_hash();
    let saved = nes.save_state();

    nes.load_state(&saved).unwrap();
    let after = nes.state_hash();

    assert_eq!(before, after);
}

#[test]
fn identical_input_sequences_produce_identical_hashes_across_instances() {
    let rom = test_rom();
    let mut a = Nes::from_rom(&rom).unwrap();
    let mut b = Nes::from_rom(&rom).unwrap();

    for input in inputs_for(60) {
        a.run_frame(FrameInput::from(input));
        b.run_frame(FrameInput::from(input));
    }

    assert_eq!(a.state_hash(), b.state_hash());
    assert_eq!(
        a.cpu.bus().ppu.frame_buffer().as_bytes(),
        b.cpu.bus().ppu.frame_buffer().as_bytes()
    );
}

/// rollback 的核心性質：在第 k 幀存檔、跑到 k+m、讀回存檔、用「相同」的
/// 輸入重新跑到 k+m，結果必須跟完全沒有讀檔時一模一樣。
#[test]
fn rollback_replay_matches_uninterrupted_run() {
    let rom = test_rom();
    let inputs = inputs_for(30);

    let mut baseline = Nes::from_rom(&rom).unwrap();
    for input in &inputs {
        baseline.run_frame(FrameInput::from(*input));
    }
    let baseline_hash = baseline.state_hash();

    let k = 12;
    let m = 10;
    let mut replay = Nes::from_rom(&rom).unwrap();
    for input in &inputs[..k] {
        replay.run_frame(FrameInput::from(*input));
    }
    let checkpoint = replay.save_state();

    for input in &inputs[k..k + m] {
        replay.run_frame(FrameInput::from(*input));
    }

    replay.load_state(&checkpoint).unwrap();
    for input in &inputs[k..] {
        replay.run_frame(FrameInput::from(*input));
    }

    assert_eq!(replay.state_hash(), baseline_hash);
}

#[test]
fn load_state_rejects_truncated_bytes() {
    let mut nes = Nes::from_rom(&test_rom()).unwrap();
    let bytes = nes.save_state();
    let truncated = &bytes[..bytes.len() / 2];

    let result = nes.load_state(truncated);

    assert!(matches!(result, Err(StateError::Decode(_))));
}

#[test]
fn load_state_rejects_tampered_length() {
    let rom = test_rom();

    // 手動破壞一份「有效」存檔的內部不變量（RAM 長度不再是 0x0800），
    // 藉此驗證 load_state 會在讀回這種資料時偵測到並拒絕，而不是照樣
    // 接受後讓後續的記憶體存取邏輯壞掉。
    let mut source = Nes::from_rom(&rom).unwrap();
    source.cpu.bus_mut().ram.push(0);
    let corrupted = source.save_state();

    let mut target = Nes::from_rom(&rom).unwrap();
    let result = target.load_state(&corrupted);

    assert!(matches!(result, Err(StateError::Corrupt)));
}

#[test]
fn load_state_rejects_mismatched_rom() {
    let source = Nes::from_rom(&other_test_rom()).unwrap();
    let state_from_other_rom = source.save_state();

    let mut target = Nes::from_rom(&test_rom()).unwrap();
    let result = target.load_state(&state_from_other_rom);

    assert!(matches!(result, Err(StateError::RomMismatch { .. })));
}

#[test]
fn from_rom_reset_state_matches_hardware_reset_vector() {
    let nes = Nes::from_rom(&test_rom()).unwrap();
    let bus = nes.cpu.bus();

    let lo = bus.peek(RESET_VECTOR);
    let hi = bus.peek(RESET_VECTOR.wrapping_add(1));
    let expected_pc = u16::from_le_bytes([lo, hi]);

    assert_eq!(nes.cpu.pc, expected_pc);
    assert_eq!(nes.cpu.sp, 0xFD);
    assert_eq!(nes.cpu.status.bits(), 0x24);
}

/// 確認 `run_frame` 真的有驅動 CPU 執行指令，而不是只推進 PPU／畫面。
#[test]
fn run_frame_advances_cpu_cycles_and_pc() {
    let mut nes = Nes::from_rom(&test_rom()).unwrap();
    let pc_before = nes.cpu.pc;
    let cycles_before = nes.cpu.bus().total_cycles();

    nes.run_frame(FrameInput::from([Buttons::empty(); 2]));

    assert!(nes.cpu.bus().total_cycles() > cycles_before);
    assert_ne!(nes.cpu.pc, pc_before);
}

#[test]
fn debug_snapshot_reflects_real_state_after_running_frames() {
    let mut nes = Nes::from_rom(&test_rom()).unwrap();
    for input in inputs_for(5) {
        nes.run_frame(FrameInput::from(input));
    }

    let snap = nes.debug_snapshot();

    assert_eq!(snap.cpu_pc, nes.cpu.pc);
    assert_eq!(snap.cpu_a, nes.cpu.a);
    assert_eq!(snap.cpu_x, nes.cpu.x);
    assert_eq!(snap.cpu_y, nes.cpu.y);
    assert_eq!(snap.cpu_sp, nes.cpu.sp);
    assert_eq!(snap.cpu_status, nes.cpu.status.bits());
    assert_eq!(snap.cpu_cycles, nes.cpu.bus().total_cycles());
    assert_eq!(snap.ppu_frame, nes.cpu.bus().ppu.frame);
    assert_eq!(snap.frame_count, 5);
    assert_ne!(snap, DebugSnapshot::default());
}

/// `step_instruction` 推進 PC 與 cycle 數；`trace` 是唯讀的（呼叫前後
/// 狀態雜湊不變）且反映「下一條要執行」的指令；`peek` 沒有副作用。
#[test]
fn debugger_api_step_trace_peek() {
    let mut nes = Nes::from_rom(&test_rom()).unwrap();
    let hash_before = nes.state_hash();
    let line = nes.trace();
    assert_eq!(nes.state_hash(), hash_before, "trace 不得改變狀態");
    assert!(line.starts_with(&format!("{:04X}", nes.cpu.pc)));

    let cycles_before = nes.cpu.bus().total_cycles();
    let pc_before = nes.cpu.pc;
    let spent = nes.step_instruction();
    assert!(spent > 0);
    assert_eq!(nes.cpu.bus().total_cycles(), cycles_before + spent as u64);
    assert_ne!(nes.cpu.pc, pc_before);

    assert_eq!(nes.peek(0x8000), 0xAA);
    assert_eq!(nes.state_hash(), nes.state_hash());
}

fn framebuffer_hash(nes: &Nes) -> u64 {
    nes.cpu.bus().ppu.frame_buffer().hash64()
}

fn distinct_pixels(nes: &Nes) -> usize {
    let mut colors = std::collections::BTreeSet::new();
    for px in nes
        .cpu
        .bus()
        .ppu
        .frame_buffer()
        .as_bytes()
        .chunks_exact(4)
    {
        colors.insert([px[0], px[1], px[2]]);
    }
    colors.len()
}

/// 竄改存檔裡 PPU 的掃描線/dot/v 之類的欄位（超出硬體範圍）必須被拒絕，而不是
/// 讀進來之後在 run_frame 裡 panic。
#[test]
fn load_state_rejects_out_of_range_ppu_fields() {
    let rom = rendering_rom();
    let mut source = Nes::from_rom(&rom).unwrap();
    source.run_frame(FrameInput::from([Buttons::empty(); 2]));

    for tamper in [
        (|n: &mut Nes| n.cpu.bus_mut().ppu.scanline = 500) as fn(&mut Nes),
        |n| n.cpu.bus_mut().ppu.cycle = 9999,
        |n| n.cpu.bus_mut().ppu.v = 0xFFFF,
        |n| n.cpu.bus_mut().ppu.fine_x = 200,
    ] {
        let mut bad = source.clone();
        tamper(&mut bad);
        let bytes = bad.save_state();

        let mut target = Nes::from_rom(&rom).unwrap();
        assert!(matches!(
            target.load_state(&bytes),
            Err(StateError::Corrupt)
        ));
    }
}

#[test]
fn four_screen_rom_is_rejected() {
    let mut rom = test_rom();
    rom[6] |= 0x08;
    assert!(matches!(
        Nes::from_rom(&rom),
        Err(RomError::FourScreenUnsupported)
    ));
}

#[test]
fn rendering_rom_draws_a_real_picture_and_takes_nmis() {
    let mut nes = Nes::from_rom(&rendering_rom()).unwrap();
    for _ in 0..10 {
        nes.run_frame(FrameInput::from([Buttons::empty(); 2]));
    }
    // 背景 tile（多種顏色）+ 精靈：一張真的畫面，不是單色。
    assert!(distinct_pixels(&nes) >= 5, "畫面顏色數太少");
    // NMI 處理常式每幀把 $00 加 1；初始化在第一幀內完成，之後每幀一次 NMI。
    let nmis = nes.peek(0x0000);
    assert!(
        (8..=10).contains(&nmis),
        "10 幀應該約 9–10 次 NMI，實際 {nmis}"
    );
}

#[test]
fn run_frame_ends_at_the_start_of_vblank() {
    let mut nes = Nes::from_rom(&rendering_rom()).unwrap();
    for _ in 0..3 {
        nes.run_frame(FrameInput::from([Buttons::empty(); 2]));
        let ppu = &nes.cpu.bus().ppu;
        assert_eq!(ppu.scanline, 241, "幀邊界在 vblank 起點");
        assert!(ppu.cycle < 40, "最多越過一條指令的 dot 數");
        assert_ne!(ppu.status & STATUS_VBLANK, 0);
    }
}

#[test]
fn rendering_is_deterministic_across_instances() {
    let rom = rendering_rom();
    let mut a = Nes::from_rom(&rom).unwrap();
    let mut b = Nes::from_rom(&rom).unwrap();
    for input in inputs_for(60) {
        a.run_frame(FrameInput::from(input));
        b.run_frame(FrameInput::from(input));
        assert_eq!(framebuffer_hash(&a), framebuffer_hash(&b));
    }
    assert_eq!(a.state_hash(), b.state_hash());
}

/// rollback 性質：在真的有畫面的情況下（PPU 狀態、捲動暫存器、NMI 都在動），
/// 於第 k 幀存檔、往前跑、讀檔、用相同輸入重跑，結果（狀態雜湊與畫面）必須跟
/// 沒中斷的一路跑完完全相同。
#[test]
fn rollback_replay_matches_uninterrupted_run_with_real_rendering() {
    let rom = rendering_rom();
    let inputs = inputs_for(40);

    let mut baseline = Nes::from_rom(&rom).unwrap();
    for input in &inputs {
        baseline.run_frame(FrameInput::from(*input));
    }

    let mut replay = Nes::from_rom(&rom).unwrap();
    for input in &inputs[..15] {
        replay.run_frame(FrameInput::from(*input));
    }
    let checkpoint = replay.save_state();
    for input in &inputs[15..30] {
        replay.run_frame(FrameInput::from(*input));
    }
    replay.load_state(&checkpoint).unwrap();
    for input in &inputs[15..] {
        replay.run_frame(FrameInput::from(*input));
    }

    assert_eq!(replay.state_hash(), baseline.state_hash());
    assert_eq!(framebuffer_hash(&replay), framebuffer_hash(&baseline));
}

/// 存檔必須包含 CPU 與 PPU 之間的相位：在「一幀中間」（單步除錯停下來）
/// 存檔、讀檔後繼續，結果要跟不中斷的一路跑完相同。
#[test]
fn mid_frame_save_state_preserves_cpu_ppu_phase() {
    let rom = rendering_rom();
    let input = [Buttons::empty(); 2];

    let mut baseline = Nes::from_rom(&rom).unwrap();
    for _ in 0..5 {
        baseline.run_frame(FrameInput::from(input));
    }
    for _ in 0..4000 {
        baseline.step_instruction();
    }
    for _ in 0..5 {
        baseline.run_frame(FrameInput::from(input));
    }

    let mut replay = Nes::from_rom(&rom).unwrap();
    for _ in 0..5 {
        replay.run_frame(FrameInput::from(input));
    }
    for _ in 0..4000 {
        replay.step_instruction();
    }
    let mid_frame = replay.save_state();
    let ppu_position = (replay.cpu.bus().ppu.scanline, replay.cpu.bus().ppu.cycle);
    replay.run_frame(FrameInput::from(input)); // 讓狀態走遠
    replay.load_state(&mid_frame).unwrap();
    assert_eq!(
        (replay.cpu.bus().ppu.scanline, replay.cpu.bus().ppu.cycle),
        ppu_position,
        "讀檔後 PPU 掃描線/dot 位置必須還原"
    );
    for _ in 0..5 {
        replay.run_frame(FrameInput::from(input));
    }

    assert_eq!(replay.state_hash(), baseline.state_hash());
    assert_eq!(framebuffer_hash(&replay), framebuffer_hash(&baseline));
}

/// 搖桿：一幀開始時鎖定輸入，程式 strobe 之後讀 8 次得到 A、B、Select、Start、
/// 上、下、左、右。
#[test]
fn joypad_reads_reflect_the_input_locked_at_frame_start() {
    let mut code = Asm::new(0x8000);
    code.lda_imm(1)
        .sta_abs(0x4016)
        .lda_imm(0)
        .sta_abs(0x4016)
        .ldx_imm(0);
    let l = code.pc();
    code.lda_abs(0x4016)
        .and_imm(1)
        .sta_abs_x(0x0200)
        .inx()
        .cpx_imm(8)
        .bne(l);
    let forever = code.pc();
    code.jmp(forever);
    let rom = build_nrom(&code, 0x8000, None, &[], &test_chr(), false);

    let mut nes = Nes::from_rom(&rom).unwrap();
    nes.run_frame(FrameInput::from([
        Buttons::a() | Buttons::start() | Buttons::right(),
        Buttons::empty(),
    ]));

    let bits: Vec<u8> = (0..8).map(|i| nes.peek(0x0200 + i)).collect();
    assert_eq!(bits, [1, 0, 0, 1, 0, 0, 0, 1]);
}

/// `STA $4014` 觸發 OAM DMA：256 byte 進 OAM，CPU 暫停 513 或 514 個 cycle。
#[test]
fn sta_4014_runs_oam_dma_and_stalls_the_cpu() {
    let mut code = Asm::new(0x8000);
    code.lda_imm(0x5A)
        .sta_abs(0x0203)
        .lda_imm(0x02)
        .sta_abs(0x4014);
    let forever = code.pc();
    code.jmp(forever);
    let rom = build_nrom(&code, 0x8000, None, &[], &test_chr(), false);

    let mut nes = Nes::from_rom(&rom).unwrap();
    for _ in 0..3 {
        nes.step_instruction(); // LDA, STA, LDA
    }
    let before = nes.cpu.bus().total_cycles();
    let store_cycles = nes.step_instruction() as u64; // STA $4014（含 DMA）
    let elapsed = nes.cpu.bus().total_cycles() - before;

    assert_eq!(nes.cpu.bus().ppu.oam[3], 0x5A);
    let stall = elapsed - store_cycles;
    assert!(stall == 513 || stall == 514, "DMA 暫停 {stall} cycles");
}

#[test]
fn reset_clears_ppu_registers_but_keeps_ram() {
    let mut nes = Nes::from_rom(&rendering_rom()).unwrap();
    for _ in 0..3 {
        nes.run_frame(FrameInput::from([Buttons::empty(); 2]));
    }
    assert_ne!(nes.cpu.bus().ppu.mask, 0);
    assert_ne!(nes.peek(0x0000), 0);

    nes.reset();
    assert_eq!(nes.cpu.bus().ppu.mask, 0);
    assert_eq!(nes.cpu.bus().ppu.ctrl, 0);
    assert_ne!(nes.peek(0x0000), 0, "RAM 內容 reset 後保留");
    assert_eq!(nes.cpu.pc, 0x8000);
}

#[test]
fn debug_ppu_views_have_expected_shapes_and_show_the_nametable() {
    let mut nes = Nes::from_rom(&rendering_rom()).unwrap();
    for _ in 0..3 {
        nes.run_frame(FrameInput::from([Buttons::empty(); 2]));
    }
    let views = nes.debug_ppu_views(0);
    assert_eq!(views.pattern_tables[0].width, 128);
    assert_eq!(views.pattern_tables[0].height, 128);
    assert_eq!(views.nametables[0].width, 256);
    assert_eq!(views.nametables[0].height, 240);
    // rendering_rom 用 horizontal mirroring：$2000 與 $2400 相同。
    assert_eq!(views.nametables[0], views.nametables[1]);
    // 只顯示背景 tile 的 nametable 影像不該是單色。
    let colors: std::collections::BTreeSet<_> = views.nametables[0]
        .rgba
        .chunks_exact(4)
        .map(|p| [p[0], p[1], p[2]])
        .collect();
    assert!(colors.len() >= 3);
}

/// 「run_frame 路徑不得 panic」：不論 PRG/CHR 內容是什麼垃圾（隨機位元組會
/// 執行到未定義行為的 opcode、亂寫 PPU 暫存器、亂觸發 DMA 與 NMI），跑幾幀都不
/// 可以 panic（debug 建置有溢位檢查）。用固定種子的 xorshift，結果可重現。
#[test]
fn random_garbage_roms_never_panic_in_run_frame() {

    for seed in 1..=24u64 {
        let mut state = seed.wrapping_mul(0x9E37_79B9_7F4A_7C15) | 1;
        let mut rom = vec![0u8; 16];
        rom[0..4].copy_from_slice(b"NES\x1A");
        rom[4] = 1 + (seed % 2) as u8; // 16KB 或 32KB PRG
        rom[5] = (seed % 3) as u8; // 0（CHR-RAM）、1、2 個 CHR bank
        rom[6] = (seed % 2) as u8; // 交替 mirroring
        for _ in 0..(rom[4] as usize * 0x4000 + rom[5] as usize * 0x2000) {
            rom.push(xorshift(&mut state));
        }
        let mut nes = Nes::from_rom(&rom).unwrap();
        for frame in 0..4 {
            let pad = xorshift(&mut state);
            nes.run_frame(FrameInput::from([Buttons::from_bits_truncate(pad), Buttons::empty()]));
            let _ = nes.debug_snapshot();
            if frame == 2 {
                let _ = nes.debug_ppu_views(pad);
                let saved = nes.save_state();
                nes.load_state(&saved).unwrap();
            }
        }
    }
}

#[test]
fn sprite0_split_scroll_takes_effect_on_the_next_scanline() {
    let rom = sprite0_split_rom();
    let mut nes = Nes::from_rom(&rom).unwrap();
    for _ in 0..4 {
        nes.run_frame(FrameInput::from([Buttons::empty(); 2]));
    }
    check_sprite0_split(&nes);
}

/// 見 `sprite0_split_scroll_takes_effect_on_the_next_scanline`。
fn sprite0_split_rom() -> Vec<u8> {
    let mut a = Asm::new(0x8000);
    a.sei().cld().ldx_imm(0xFF).txs();
    a.set_ppu_addr(0x3F00);
    for color in [0x0F, 0x16, 0x2A, 0x30] {
        a.lda_imm(color).sta_abs(0x2007);
    }
    a.set_ppu_addr(0x2000).ldx_imm(0);
    for _ in 0..2 {
        let l = a.pc();
        a.txa().and_imm(0x07).sta_abs(0x2007).inx().bne(l);
    }
    // sprite 0：Y = 39（第一列在掃描線 40）、tile 3（純色 3）、X = 100。
    a.lda_imm(0).sta_abs(0x2003);
    for byte in [39, 3, 0, 100] {
        a.lda_imm(byte).sta_abs(0x2004);
    }
    a.lda_imm(0x00).sta_abs(0x2000);
    a.lda_imm(0x1E).sta_abs(0x2001);

    let wait_vblank = a.pc();
    a.bit_abs(0x2002).bpl(wait_vblank);
    a.lda_imm(0).sta_abs(0x2005).sta_abs(0x2005);
    let wait_clear = a.pc();
    a.bit_abs(0x2002).bvs(wait_clear);
    let wait_hit = a.pc();
    a.bit_abs(0x2002).bvc(wait_hit);
    a.lda_imm(8).sta_abs(0x2005).lda_imm(0).sta_abs(0x2005);
    a.jmp(wait_vblank);

    build_nrom(&a, 0x8000, None, &[], &test_chr(), false)
}

fn check_sprite0_split(nes: &Nes) {
    let fb = nes.cpu.bus().ppu.frame_buffer().as_bytes();
    let px = |x: usize, y: usize| {
        let i = (y * WIDTH + x) * 4;
        [fb[i], fb[i + 1], fb[i + 2]]
    };
    let backdrop = SYSTEM_PALETTE[0x0F];
    let color1 = SYSTEM_PALETTE[0x16];

    // 第 0 欄是 tile 0（空白）→ 背景色；捲動 8 px 之後第 0 欄變成 tile 1（純色 1）。
    // （nametable 只填了前 16 列 tile，所以只檢查到第 127 條線。）
    for y in [0, 10, 39, 40] {
        assert_eq!(px(4, y), backdrop, "第 {y} 條線應該用捲動 0");
    }
    for y in [41, 42, 100, 120] {
        assert_eq!(px(4, y), color1, "第 {y} 條線應該用捲動 8");
    }
}

/// 一份什麼都不做的 mapper 測試 ROM（程式碼只有一個無窮迴圈）。
fn idle_mapper_rom(mapper: u8, prg_banks: usize, chr_banks_8k: usize) -> Vec<u8> {
    let mut code = Asm::new(0xE000);
    let forever = code.pc();
    code.jmp(forever);
    build_mapper_rom(mapper, prg_banks, chr_banks_8k, &code, &[])
}

/// 經 CPU 匯流排送 5 次寫入，把 `value` 的低 5 bit（bit 0 先）寫進 MMC1 的暫存器。
fn mmc1_write(nes: &mut Nes, addr: u16, value: u8) {
    for i in 0..5 {
        nes.cpu.bus_mut().write(addr, (value >> i) & 1);
    }
}

fn xorshift(state: &mut u64) -> u8 {
    *state ^= *state << 13;
    *state ^= *state >> 7;
    *state ^= *state << 17;
    (*state >> 24) as u8
}

fn mapper_row(nes: &Nes, key: &str) -> String {
    nes.debug_snapshot()
        .mapper_regs
        .into_iter()
        .find(|(k, _)| k == key)
        .unwrap_or_else(|| panic!("找不到 mapper 資訊列 {key}"))
        .1
}

#[test]
fn save_state_starts_with_magic_and_both_version_numbers() {
    let bytes = Nes::from_rom(&test_rom()).unwrap().save_state();
    assert!(bytes.len() > HEADER_LEN);
    assert_eq!(bytes[0..4], STATE_MAGIC);
    assert_eq!(
        u16::from_le_bytes([bytes[4], bytes[5]]),
        STATE_FORMAT_VERSION
    );
    assert_eq!(
        u16::from_le_bytes([bytes[6], bytes[7]]),
        CORE_BEHAVIOR_VERSION
    );
}

/// 竄改 header 的某個位置後讀檔，必須被 `VersionMismatch` 拒絕；且 `expected`
/// 是目前版本、`found` 是被竄改後的內容。
fn assert_header_tamper_rejected(tamper: impl Fn(&mut Vec<u8>)) -> StateError {
    let mut nes = Nes::from_rom(&test_rom()).unwrap();
    let mut bytes = nes.save_state();
    tamper(&mut bytes);
    let before = nes.state_hash();
    let err = nes
        .load_state(&bytes)
        .expect_err("竄改過的 header 必須被拒絕");
    assert_eq!(nes.state_hash(), before, "被拒絕的讀檔不得改動狀態");
    err
}

#[test]
fn load_state_rejects_tampered_magic() {
    let err = assert_header_tamper_rejected(|b| b[0] ^= 0xFF);
    let StateError::VersionMismatch { expected, found } = err else {
        panic!("應為 VersionMismatch，實際 {err:?}");
    };
    assert_eq!(expected, StateHeader::current());
    assert_ne!(found.magic, STATE_MAGIC);
    assert_eq!(found.format_version, STATE_FORMAT_VERSION);
}

#[test]
fn load_state_rejects_tampered_format_version() {
    let err = assert_header_tamper_rejected(|b| {
        let v = STATE_FORMAT_VERSION + 1;
        b[4..6].copy_from_slice(&v.to_le_bytes());
    });
    let StateError::VersionMismatch { expected, found } = err else {
        panic!("應為 VersionMismatch，實際 {err:?}");
    };
    assert_eq!(expected.format_version, STATE_FORMAT_VERSION);
    assert_eq!(found.format_version, STATE_FORMAT_VERSION + 1);
    assert_eq!(found.core_version, CORE_BEHAVIOR_VERSION);
}

#[test]
fn load_state_rejects_tampered_core_behavior_version() {
    let err = assert_header_tamper_rejected(|b| {
        let v = CORE_BEHAVIOR_VERSION + 1;
        b[6..8].copy_from_slice(&v.to_le_bytes());
    });
    let StateError::VersionMismatch { expected, found } = err else {
        panic!("應為 VersionMismatch，實際 {err:?}");
    };
    assert_eq!(expected.core_version, CORE_BEHAVIOR_VERSION);
    assert_eq!(found.core_version, CORE_BEHAVIOR_VERSION + 1);
    assert_eq!(found.format_version, STATE_FORMAT_VERSION);
}

#[test]
fn load_state_rejects_input_shorter_than_the_header() {
    let mut nes = Nes::from_rom(&test_rom()).unwrap();
    assert!(matches!(nes.load_state(b"NES"), Err(StateError::Decode(_))));
    assert!(matches!(nes.load_state(&[]), Err(StateError::Decode(_))));
}

/// APU 探針對它用到的每個功能都敏感：改變 frame counter 模式、IRQ 抑制、有沒有確認
/// `$4015`、有沒有 DMC，最後的狀態雜湊都不同（否則行為指紋抓不到那部分的退步）。
#[test]
fn apu_probe_hash_depends_on_each_apu_feature_it_exercises() {
    let hash = |probe: ApuProbe| {
        let mut nes = Nes::from_rom(&apu_probe_rom(probe)).unwrap();
        for input in inputs_for(60) {
            nes.run_frame(FrameInput::from(input));
        }
        nes.state_hash()
    };
    let base = ApuProbe::DEFAULT;
    let hashes = [
        hash(base),
        hash(ApuProbe {
            frame_counter: 0x40, // 抑制 frame IRQ
            ..base
        }),
        hash(ApuProbe {
            frame_counter: 0x80, // 5 步模式（沒有 frame IRQ）
            ..base
        }),
        hash(ApuProbe {
            ack_frame_irq: false, // 不讀 $4015 → frame IRQ 旗標不會清
            ..base
        }),
        hash(ApuProbe { dmc: false, ..base }),
    ];
    for i in 0..hashes.len() {
        for j in i + 1..hashes.len() {
            assert_ne!(hashes[i], hashes[j], "變體 {i} 與 {j} 的狀態雜湊相同");
        }
    }
}

/// 輸出（畫面與音訊）開關：同樣的輸入跑 N 幀，開與關的 `state_hash` 必須逐幀相同。
/// 涵蓋會依賴渲染結果的狀態（sprite 0 hit 的 ROM）與 APU（IRQ、DMC）。
#[test]
fn output_switch_does_not_change_the_state_hash() {
    let roms: [(&str, Vec<u8>); 5] = [
        ("rendering", rendering_rom()),
        ("mmc1", mmc1_churn_rom()),
        ("dummy read", dummy_read_probe_rom()),
        ("apu probe", apu_probe_rom(ApuProbe::DEFAULT)),
        ("sprite 0 split", sprite0_split_rom()),
    ];
    for (name, rom) in roms {
        let mut on = Nes::from_rom(&rom).unwrap();
        let mut off = Nes::from_rom(&rom).unwrap();
        let mut toggled = Nes::from_rom(&rom).unwrap();
        off.set_output_enabled(false);
        assert!(on.output_enabled() && !off.output_enabled());
        for (frame, input) in inputs_for(60).into_iter().enumerate() {
            // toggled：第 20–39 幀關閉，其餘開啟。
            toggled.set_output_enabled(!(20..40).contains(&frame));
            on.run_frame(FrameInput::from(input));
            off.run_frame(FrameInput::from(input));
            toggled.run_frame(FrameInput::from(input));
            assert_eq!(on.state_hash(), off.state_hash(), "{name}：第 {frame} 幀");
            assert_eq!(
                on.state_hash(),
                toggled.state_hash(),
                "{name}：切換，第 {frame} 幀"
            );
        }
        let (mut from_on, mut from_off) = (Vec::new(), Vec::new());
        on.drain_audio(&mut from_on);
        off.drain_audio(&mut from_off);
        assert!(!from_on.is_empty(), "{name}：開啟時有音訊");
        assert!(from_off.is_empty(), "{name}：關閉時沒有音訊");
    }

    // 關閉時不寫 framebuffer（維持關閉當下的內容），開啟時每幀都重畫。
    // （`from_rom` 的 reset 序列已經畫了第 0 條掃描線，所以基準是關閉當下的畫面。）
    let mut on = Nes::from_rom(&rendering_rom()).unwrap();
    let mut off = Nes::from_rom(&rendering_rom()).unwrap();
    off.set_output_enabled(false);
    let at_switch = off.frame_buffer().as_bytes().to_vec();
    for input in inputs_for(10) {
        on.run_frame(FrameInput::from(input));
        off.run_frame(FrameInput::from(input));
    }
    assert_ne!(on.frame_buffer().as_bytes(), &at_switch[..]);
    assert_eq!(off.frame_buffer().as_bytes(), &at_switch[..]);
}

/// 輸出設定（開關、取樣率、聲道遮罩）不進存檔：`load_state` 之後保留目前的設定，
/// 但清掉濾波器與尚未取走的取樣。
#[test]
fn load_state_keeps_output_settings_and_resets_the_audio_signal() {
    let rom = apu_probe_rom(ApuProbe::DEFAULT);
    let mut nes = Nes::from_rom(&rom).unwrap();
    for _ in 0..10 {
        nes.run_frame(FrameInput::from([Buttons::empty(); 2]));
    }
    let saved = nes.save_state();
    nes.set_audio_sample_rate(44_100_000_000);
    nes.set_audio_channel_mask(CHANNEL_TRIANGLE | CHANNEL_NOISE);
    nes.run_frame(FrameInput::from([Buttons::empty(); 2]));
    assert!(nes.cpu.bus().apu.buffered_samples() > 0);

    nes.load_state(&saved).unwrap();
    assert_eq!(nes.audio_sample_rate(), 44_100_000_000);
    assert_eq!(
        nes.audio_channel_mask(),
        CHANNEL_TRIANGLE | CHANNEL_NOISE
    );
    assert!(nes.output_enabled());
    assert_eq!(nes.cpu.bus().apu.buffered_samples(), 0);

    nes.set_output_enabled(false);
    nes.load_state(&saved).unwrap();
    assert!(!nes.output_enabled(), "關閉狀態也保留");
}

#[test]
fn mmc1_prg_bank_switching_through_the_bus() {
    let mut nes = Nes::from_rom(&idle_mapper_rom(1, 8, 2)).unwrap();
    // 開機：模式 3，$8000 = bank 0、$C000 = 最後一個 bank。
    assert_eq!(nes.peek(0x8100), PRG_MARK);
    assert_eq!(nes.peek(0xC100), PRG_MARK + 7);

    mmc1_write(&mut nes, 0xE000, 3);
    assert_eq!(nes.peek(0x8100), PRG_MARK + 3);
    assert_eq!(nes.peek(0xC100), PRG_MARK + 7, "$C000 固定最後一個 bank");

    // 模式 2：$8000 固定第一個、$C000 切換。
    mmc1_write(&mut nes, 0x8000, 0b01010);
    mmc1_write(&mut nes, 0xE000, 5);
    assert_eq!(nes.peek(0x8100), PRG_MARK);
    assert_eq!(nes.peek(0xC100), PRG_MARK + 5);

    // 模式 0：32KB，bank 5 → 4、5。
    mmc1_write(&mut nes, 0x8000, 0b00010);
    assert_eq!(nes.peek(0x8100), PRG_MARK + 4);
    assert_eq!(nes.peek(0xC100), PRG_MARK + 5);
}

#[test]
fn mmc1_chr_bank_switching_is_visible_to_the_ppu() {
    let mut nes = Nes::from_rom(&idle_mapper_rom(1, 2, 2)).unwrap(); // 4 個 4KB CHR
    // 4KB 模式：兩個獨立的 4KB。
    mmc1_write(&mut nes, 0x8000, 0b11110);
    mmc1_write(&mut nes, 0xA000, 3);
    mmc1_write(&mut nes, 0xC000, 1);
    assert_eq!(nes.peek_ppu(0x0000), CHR_MARK + 3);
    assert_eq!(nes.peek_ppu(0x1000), CHR_MARK + 1);
    // 8KB 模式：CHR bank 0 = 3 → 忽略最低位 → 4KB bank 2、3。
    mmc1_write(&mut nes, 0x8000, 0b01110);
    assert_eq!(nes.peek_ppu(0x0000), CHR_MARK + 2);
    assert_eq!(nes.peek_ppu(0x1000), CHR_MARK + 3);
}

/// PPU 每次存取 nametable 都要查 mapper「目前」的 mirroring：同一份 VRAM 內容，
/// 隨 MMC1 control 改變而讀到不同的邏輯配置。
#[test]
fn mmc1_mirroring_is_looked_up_on_every_nametable_access() {
    let mut nes = Nes::from_rom(&idle_mapper_rom(1, 2, 1)).unwrap();
    let ppu_write = |nes: &mut Nes, addr: u16, value: u8| {
        let bus = nes.cpu.bus_mut();
        bus.write(0x2006, (addr >> 8) as u8);
        bus.write(0x2006, addr as u8);
        bus.write(0x2007, value);
    };
    let tables = |nes: &Nes| [0x2000u16, 0x2400, 0x2800, 0x2C00].map(|a| nes.peek_ppu(a));

    // 先在 vertical（control mirroring = 2）下寫兩張不同的實體 nametable。
    mmc1_write(&mut nes, 0x8000, 0b01110);
    ppu_write(&mut nes, 0x2000, 0x11);
    ppu_write(&mut nes, 0x2400, 0x22);
    assert_eq!(tables(&nes), [0x11, 0x22, 0x11, 0x22], "vertical");

    mmc1_write(&mut nes, 0x8000, 0b01111); // horizontal
    assert_eq!(tables(&nes), [0x11, 0x11, 0x22, 0x22], "horizontal");

    mmc1_write(&mut nes, 0x8000, 0b01100); // 單畫面 A
    assert_eq!(tables(&nes), [0x11; 4], "single screen A");

    mmc1_write(&mut nes, 0x8000, 0b01101); // 單畫面 B
    assert_eq!(tables(&nes), [0x22; 4], "single screen B");

    // 單畫面下經 PPU 寫入，落在被選到的那張實體 nametable。
    ppu_write(&mut nes, 0x2C05, 0x77);
    mmc1_write(&mut nes, 0x8000, 0b01110);
    assert_eq!(nes.peek_ppu(0x2405), 0x77);
    assert_eq!(nes.debug_snapshot().mapper_id, 1);
}

#[test]
fn mmc1_prg_ram_disable_hides_it_from_reads_and_writes() {
    let mut nes = Nes::from_rom(&idle_mapper_rom(1, 2, 1)).unwrap();
    nes.cpu.bus_mut().write(0x6000, 0x55);
    assert_eq!(nes.peek(0x6000), 0x55);

    mmc1_write(&mut nes, 0xE000, 0x10); // PRG-RAM 停用
    nes.cpu.bus_mut().write(0x6000, 0x99); // 被忽略
    let open_bus = nes.cpu.bus_mut().read(0x6000);
    assert_ne!(open_bus, 0x55, "停用時讀到 open bus，不是 RAM 內容");

    mmc1_write(&mut nes, 0xE000, 0x00); // 重新啟用：內容還在、停用期間的寫入沒有生效
    assert_eq!(nes.peek(0x6000), 0x55);
}

/// 讀-改-寫指令對 MMC1 只有「舊值」那次寫入生效：`INC $9000`（ROM 該處是 `$00`）
/// 先寫 `$00`（進入移位暫存器）、下一個 cycle 才寫 `$01`（被忽略），所以只收到 1 個 bit。
#[test]
fn mmc1_rmw_instruction_counts_as_a_single_serial_write() {
    let mut code = Asm::new(0xE000);
    code.inc_abs(0x9000);
    let forever = code.pc();
    code.jmp(forever);
    let rom = build_mapper_rom(1, 2, 1, &code, &[(0x9000, &[0x00])]);
    let mut nes = Nes::from_rom(&rom).unwrap();
    assert_eq!(nes.peek(0x9000), 0x00);

    nes.step_instruction(); // INC $9000
    assert!(
        mapper_row(&nes, "移位暫存器").contains("已寫入 1 / 5"),
        "RMW 的兩次相鄰寫入只算一次：{}",
        mapper_row(&nes, "移位暫存器")
    );

    // 對照：兩條獨立的 STA（相隔 ≥ 2 個 cycle）各算一次。
    let mut code = Asm::new(0xE000);
    code.lda_imm(0).sta_abs(0x9000).sta_abs(0x9000);
    let forever = code.pc();
    code.jmp(forever);
    let rom = build_mapper_rom(1, 2, 1, &code, &[]);
    let mut nes = Nes::from_rom(&rom).unwrap();
    for _ in 0..3 {
        nes.step_instruction();
    }
    assert!(mapper_row(&nes, "移位暫存器").contains("已寫入 2 / 5"));
}

#[test]
fn uxrom_switches_8000_and_fixes_c000_through_the_bus() {
    let mut nes = Nes::from_rom(&idle_mapper_rom(2, 8, 0)).unwrap(); // CHR-RAM
    assert_eq!(nes.peek(0x8100), PRG_MARK);
    assert_eq!(nes.peek(0xC100), PRG_MARK + 7);
    nes.cpu.bus_mut().write(0x8000, 4);
    assert_eq!(nes.peek(0x8100), PRG_MARK + 4);
    assert_eq!(nes.peek(0xC100), PRG_MARK + 7);
    assert_eq!(mapper_row(&nes, "PRG $8000-$BFFF"), "bank 4");
    // UxROM 的 CHR-RAM 可寫。
    let bus = nes.cpu.bus_mut();
    bus.write(0x2006, 0x00);
    bus.write(0x2006, 0x10);
    bus.write(0x2007, 0x5A);
    assert_eq!(nes.peek_ppu(0x0010), 0x5A);
}

#[test]
fn cnrom_switches_chr_and_keeps_prg_fixed_through_the_bus() {
    let mut nes = Nes::from_rom(&idle_mapper_rom(3, 2, 4)).unwrap(); // 4 個 8KB CHR
    assert_eq!(nes.peek_ppu(0x0000), CHR_MARK);
    nes.cpu.bus_mut().write(0x8000, 2);
    assert_eq!(
        nes.peek_ppu(0x0000),
        CHR_MARK + 4,
        "8KB bank 2 = 4KB 區塊 4"
    );
    assert_eq!(nes.peek_ppu(0x1000), CHR_MARK + 5);
    assert_eq!(nes.peek(0x8100), PRG_MARK);
    assert_eq!(nes.peek(0xC100), PRG_MARK + 1);
}

#[test]
fn mapper_state_survives_save_and_load_including_a_half_finished_serial_write() {
    let rom = idle_mapper_rom(1, 8, 2);
    let mut nes = Nes::from_rom(&rom).unwrap();
    mmc1_write(&mut nes, 0xE000, 5);
    for bit in [1, 0, 1] {
        nes.cpu.bus_mut().write(0x8000, bit); // 序列寫入進行到一半
    }
    let saved = nes.save_state();
    let hash = nes.state_hash();

    mmc1_write(&mut nes, 0xE000, 2);
    assert_ne!(nes.state_hash(), hash);
    nes.load_state(&saved).unwrap();

    assert_eq!(nes.state_hash(), hash);
    assert_eq!(nes.peek(0x8100), PRG_MARK + 5);
    assert!(mapper_row(&nes, "移位暫存器").contains("已寫入 3 / 5"));
}

#[test]
fn load_state_rejects_a_mapper_that_disagrees_with_the_header() {
    let rom = idle_mapper_rom(1, 2, 1);
    let mut tampered = Nes::from_rom(&rom).unwrap();
    tampered.cpu.bus_mut().cartridge.mapper = Mapper::Uxrom(Uxrom::new());
    let bytes = tampered.save_state();

    let mut target = Nes::from_rom(&rom).unwrap();
    assert!(matches!(
        target.load_state(&bytes),
        Err(StateError::Corrupt)
    ));
}

/// rollback 性質在 MMC1 上同樣成立：mapper 暫存器（含移位暫存器）一直在變的
/// 程式，存檔、往前跑、讀檔、重跑，結果與不中斷相同。
#[test]
fn rollback_replay_matches_uninterrupted_run_with_an_active_mmc1() {
    let rom = mmc1_churn_rom();
    let inputs = inputs_for(40);

    let mut baseline = Nes::from_rom(&rom).unwrap();
    for input in &inputs {
        baseline.run_frame(FrameInput::from(*input));
    }

    let mut replay = Nes::from_rom(&rom).unwrap();
    for input in &inputs[..15] {
        replay.run_frame(FrameInput::from(*input));
    }
    let checkpoint = replay.save_state();
    for input in &inputs[15..30] {
        replay.run_frame(FrameInput::from(*input));
    }
    replay.load_state(&checkpoint).unwrap();
    for input in &inputs[15..] {
        replay.run_frame(FrameInput::from(*input));
    }
    assert_eq!(replay.state_hash(), baseline.state_hash());
}

/// 隨機垃圾 ROM 在 mapper 1/2/3 下也不得 panic（暫存器被亂寫、bank 超出範圍）。
#[test]
fn random_garbage_roms_never_panic_on_mappers_1_2_3() {
    for seed in 1..=18u64 {
        let mut state = seed.wrapping_mul(0x9E37_79B9_7F4A_7C15) | 1;
        let mapper = 1 + (seed % 3) as u8;
        let prg_banks = 1 + (seed % 5) as u8; // 含奇數 bank 數
        let chr_banks = (seed % 4) as u8; // 0 = CHR-RAM
        let mut rom = vec![0u8; 16];
        rom[0..4].copy_from_slice(b"NES\x1A");
        rom[4] = prg_banks;
        rom[5] = chr_banks;
        rom[6] = mapper << 4;
        for _ in 0..(prg_banks as usize * 0x4000 + chr_banks as usize * 0x2000) {
            rom.push(xorshift(&mut state));
        }
        let mut nes = Nes::from_rom(&rom).unwrap();
        for frame in 0..4 {
            let pad = xorshift(&mut state);
            nes.run_frame(FrameInput::from([Buttons::from_bits_truncate(pad), Buttons::empty()]));
            let _ = nes.debug_snapshot();
            if frame == 2 {
                let _ = nes.debug_ppu_views(pad);
                let saved = nes.save_state();
                nes.load_state(&saved).unwrap();
            }
        }
    }
}

/// 跑到 `$6000` 不再是「執行中」（`$80`）為止，回傳 `(結果碼, 結果文字)`。
/// 簽章 `DE B0 61` 必須存在，否則視為 ROM 根本沒跑起來。
fn run_blargg_rom(rom: &[u8]) -> (u8, String) {
    let mut nes = Nes::from_rom(rom).unwrap();
    for _ in 0..30 {
        nes.run_frame(FrameInput::from([Buttons::empty(); 2]));
        if nes.peek(0x6001) == 0xDE && nes.peek(0x6000) != 0x80 {
            break;
        }
    }
    assert_eq!(
        [nes.peek(0x6001), nes.peek(0x6002), nes.peek(0x6003)],
        [0xDE, 0xB0, 0x61],
        "缺少 blargg 簽章"
    );
    let text: String = (0x6004u16..)
        .map(|a| nes.peek(a))
        .take_while(|&b| b != 0)
        .map(char::from)
        .collect();
    (nes.peek(0x6000), text)
}

#[test]
fn uxrom_synthetic_rom_passes_the_blargg_protocol() {
    let (code, text) = run_blargg_rom(&uxrom_test_rom());
    assert_eq!((code, text.as_str()), (0, "UxROM: Passed"));
}

#[test]
fn cnrom_synthetic_rom_passes_the_blargg_protocol() {
    let (code, text) = run_blargg_rom(&cnrom_test_rom());
    assert_eq!((code, text.as_str()), (0, "CNROM: Passed"));
}

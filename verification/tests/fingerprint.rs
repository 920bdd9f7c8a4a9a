//! Fingerprints.

use nes_core::state::{decode, HEADER_LEN};
use nes_core::{Buttons, FrameInput, Mapper, Nes, StatusFlags};

/// A small assembler for test programs.
#[allow(dead_code)]
struct Asm {
    origin: u16,
    bytes: Vec<u8>,
}

#[allow(dead_code)]
impl Asm {
    fn new(origin: u16) -> Asm {
        Asm { origin, bytes: Vec::new() }
    }

    fn pc(&self) -> u16 {
        self.origin + self.bytes.len() as u16
    }

    fn op(&mut self, bytes: &[u8]) -> &mut Asm {
        self.bytes.extend_from_slice(bytes);
        self
    }

    fn op_abs(&mut self, opcode: u8, addr: u16) -> &mut Asm {
        self.op(&[opcode, addr as u8, (addr >> 8) as u8])
    }

    fn branch(&mut self, opcode: u8, target: u16) -> &mut Asm {
        let next = self.pc().wrapping_add(2);
        self.op(&[opcode, target.wrapping_sub(next) as u8])
    }

    fn jmp(&mut self, addr: u16) -> &mut Asm {
        self.op_abs(0x4C, addr)
    }

    fn lda_imm(&mut self, v: u8) -> &mut Asm {
        self.op(&[0xA9, v])
    }

    fn ldx_imm(&mut self, v: u8) -> &mut Asm {
        self.op(&[0xA2, v])
    }

    fn and_imm(&mut self, v: u8) -> &mut Asm {
        self.op(&[0x29, v])
    }

    fn cmp_imm(&mut self, v: u8) -> &mut Asm {
        self.op(&[0xC9, v])
    }

    fn cpx_imm(&mut self, v: u8) -> &mut Asm {
        self.op(&[0xE0, v])
    }

    fn lda_abs(&mut self, addr: u16) -> &mut Asm {
        self.op_abs(0xAD, addr)
    }

    fn lda_abs_x(&mut self, addr: u16) -> &mut Asm {
        self.op_abs(0xBD, addr)
    }

    fn sta_abs(&mut self, addr: u16) -> &mut Asm {
        self.op_abs(0x8D, addr)
    }

    fn sta_abs_x(&mut self, addr: u16) -> &mut Asm {
        self.op_abs(0x9D, addr)
    }

    fn adc_abs(&mut self, addr: u16) -> &mut Asm {
        self.op_abs(0x6D, addr)
    }

    fn inc_abs(&mut self, addr: u16) -> &mut Asm {
        self.op_abs(0xEE, addr)
    }

    fn rol_abs(&mut self, addr: u16) -> &mut Asm {
        self.op_abs(0x2E, addr)
    }

    fn bit_abs(&mut self, addr: u16) -> &mut Asm {
        self.op_abs(0x2C, addr)
    }

    fn bne(&mut self, target: u16) -> &mut Asm {
        self.branch(0xD0, target)
    }

    fn beq(&mut self, target: u16) -> &mut Asm {
        self.branch(0xF0, target)
    }

    fn bpl(&mut self, target: u16) -> &mut Asm {
        self.branch(0x10, target)
    }

    fn bvs(&mut self, target: u16) -> &mut Asm {
        self.branch(0x70, target)
    }

    fn bvc(&mut self, target: u16) -> &mut Asm {
        self.branch(0x50, target)
    }

    fn inx(&mut self) -> &mut Asm {
        self.op(&[0xE8])
    }

    fn txa(&mut self) -> &mut Asm {
        self.op(&[0x8A])
    }

    fn txs(&mut self) -> &mut Asm {
        self.op(&[0x9A])
    }

    fn pha(&mut self) -> &mut Asm {
        self.op(&[0x48])
    }

    fn pla(&mut self) -> &mut Asm {
        self.op(&[0x68])
    }

    fn lsr(&mut self) -> &mut Asm {
        self.op(&[0x4A])
    }

    fn clc(&mut self) -> &mut Asm {
        self.op(&[0x18])
    }

    fn cli(&mut self) -> &mut Asm {
        self.op(&[0x58])
    }

    fn sei(&mut self) -> &mut Asm {
        self.op(&[0x78])
    }

    fn cld(&mut self) -> &mut Asm {
        self.op(&[0xD8])
    }

    fn rti(&mut self) -> &mut Asm {
        self.op(&[0x40])
    }

    fn set_ppu_addr(&mut self, addr: u16) -> &mut Asm {
        self.lda_imm((addr >> 8) as u8)
            .sta_abs(0x2006)
            .lda_imm(addr as u8)
            .sta_abs(0x2006)
    }
}

/// A ROM with 32 KB of program at `$8000` and 8 KB of patterns.
#[allow(dead_code)]
fn build_nrom_irq(
    code: &Asm,
    reset: u16,
    nmi: Option<u16>,
    irq: Option<u16>,
    extra: &[(u16, &[u8])],
    chr: &[u8],
    vertical: bool,
) -> Vec<u8> {
    let mut rom = vec![0u8; 16];
    rom[0..4].copy_from_slice(b"NES\x1A");
    rom[4] = 2;
    rom[5] = 1;
    rom[6] = vertical as u8;
    let mut prg = vec![0u8; 0x8000];
    let start = (code.origin - 0x8000) as usize;
    prg[start..start + code.bytes.len()].copy_from_slice(&code.bytes);
    for (addr, bytes) in extra {
        let at = (*addr - 0x8000) as usize;
        prg[at..at + bytes.len()].copy_from_slice(bytes);
    }
    for (at, vector) in [
        (0x7FFA, nmi.unwrap_or(reset)),
        (0x7FFC, reset),
        (0x7FFE, irq.unwrap_or(reset)),
    ] {
        prg[at] = vector as u8;
        prg[at + 1] = (vector >> 8) as u8;
    }
    rom.extend_from_slice(&prg);
    let mut patterns = vec![0u8; 0x2000];
    patterns[..chr.len()].copy_from_slice(chr);
    rom.extend_from_slice(&patterns);
    rom
}

#[allow(dead_code)]
fn build_nrom(
    code: &Asm,
    reset: u16,
    nmi: Option<u16>,
    extra: &[(u16, &[u8])],
    chr: &[u8],
    vertical: bool,
) -> Vec<u8> {
    build_nrom_irq(code, reset, nmi, None, extra, chr, vertical)
}

/// Patterns: tile 0 is empty, tiles 1 to 3 are solid in their colour, tile 4 is striped, tile 5 has
/// its left half in colour 3 above and is solid below, tile 6 is solid above and empty below, and
/// tile 7 is empty.
#[allow(dead_code)]
fn test_chr() -> Vec<u8> {
    let mut chr = vec![0u8; 0x2000];
    for row in 0..8usize {
        chr[16 + row] = 0xFF;
        chr[2 * 16 + 8 + row] = 0xFF;
        chr[3 * 16 + row] = 0xFF;
        chr[3 * 16 + 8 + row] = 0xFF;
        chr[4 * 16 + row] = 0xAA;
        let left = if row < 4 { 0xF0 } else { 0xFF };
        chr[5 * 16 + row] = left;
        chr[5 * 16 + 8 + row] = left;
        let upper = if row < 4 { 0xFF } else { 0x00 };
        chr[6 * 16 + row] = upper;
        chr[6 * 16 + 8 + row] = upper;
    }
    chr
}

/// The first byte of every page of the first PRG bank; the next banks count up.
#[allow(dead_code)]
const PRG_MARK: u8 = 0x40;

/// The bytes of the first 4 KB of CHR-ROM; the next ones count up.
#[allow(dead_code)]
const CHR_MARK: u8 = 0x80;

/// A ROM with a mapper. The program is in the last bank, and every other byte says which bank it is
/// from.
#[allow(dead_code)]
fn build_mapper_rom(
    mapper: u8,
    prg_banks: usize,
    chr_banks_8k: usize,
    code: &Asm,
    extra: &[(u16, &[u8])],
) -> Vec<u8> {
    let mut rom = vec![0u8; 16];
    rom[0..4].copy_from_slice(b"NES\x1A");
    rom[4] = prg_banks as u8;
    rom[5] = chr_banks_8k as u8;
    rom[6] = mapper << 4;
    let mut prg = Vec::new();
    for bank in 0..prg_banks {
        prg.extend(vec![PRG_MARK + bank as u8; 0x4000]);
    }
    let last = (prg_banks - 1) * 0x4000;
    let place = |addr: u16| {
        if addr >= 0xC000 {
            last + (addr - 0xC000) as usize
        } else {
            (addr - 0x8000) as usize
        }
    };
    let at = place(code.origin);
    prg[at..at + code.bytes.len()].copy_from_slice(&code.bytes);
    for (addr, bytes) in extra {
        let at = place(*addr);
        prg[at..at + bytes.len()].copy_from_slice(bytes);
    }
    for vector in [0xFFFAu16, 0xFFFC, 0xFFFE] {
        let at = place(vector);
        prg[at] = code.origin as u8;
        prg[at + 1] = (code.origin >> 8) as u8;
    }
    rom.extend_from_slice(&prg);
    for block in 0..2 * chr_banks_8k {
        rom.extend(vec![CHR_MARK + block as u8; 0x1000]);
    }
    rom
}

/// A picture with background, sprites and scrolling. The NMI handler counts in `$00`.
#[allow(dead_code)]
fn rendering_rom() -> Vec<u8> {
    let mut a = Asm::new(0x8000);
    a.sei().cld().ldx_imm(0xFF).txs();
    a.set_ppu_addr(0x3F00);
    for color in [
        0x0F, 0x16, 0x2A, 0x30, 0x0F, 0x11, 0x21, 0x31, 0x0F, 0x15, 0x25, 0x35, 0x0F, 0x19, 0x29,
        0x39, 0x0F, 0x06, 0x1A, 0x30, 0x0F, 0x12, 0x22, 0x32,
    ] {
        a.lda_imm(color).sta_abs(0x2007);
    }
    a.set_ppu_addr(0x2000).ldx_imm(0);
    for _ in 0..4 {
        let l = a.pc();
        a.txa().and_imm(0x07).sta_abs(0x2007).inx().bne(l);
    }
    a.ldx_imm(0);
    let l = a.pc();
    a.txa().and_imm(0x7F).sta_abs_x(0x0200).inx().bne(l);
    a.lda_imm(0).sta_abs(0x2003).lda_imm(0x02).sta_abs(0x4014);
    a.lda_imm(0).sta_abs(0x2005).sta_abs(0x2005);
    a.lda_imm(0x80).sta_abs(0x2000).lda_imm(0x1E).sta_abs(0x2001);
    let forever = a.pc();
    a.inc_abs(0x0001).jmp(forever);
    let mut nmi = Asm::new(0x9000);
    nmi.pha()
        .inc_abs(0x0000)
        .lda_abs(0x0000)
        .sta_abs(0x2005)
        .lda_imm(0)
        .sta_abs(0x2005)
        .pla()
        .rti();
    build_nrom(&a, 0x8000, Some(0x9000), &[(0x9000, &nmi.bytes)], &test_chr(), false)
}

/// What the APU probe does.
#[allow(dead_code)]
#[derive(Clone, Copy)]
struct ApuProbe {
    frame_counter: u8,
    ack_frame_irq: bool,
    dmc: bool,
}

#[allow(dead_code)]
impl ApuProbe {
    const DEFAULT: ApuProbe = ApuProbe { frame_counter: 0x00, ack_frame_irq: true, dmc: true };
}

/// All channels, the frame interrupt and the DMC interrupt. The handler counts in `$02`, the main
/// loop in `$00`.
#[allow(dead_code)]
fn apu_probe_rom(probe: ApuProbe) -> Vec<u8> {
    let mut a = Asm::new(0x8000);
    a.sei().cld().ldx_imm(0xFF).txs();
    for (reg, value) in [
        (0x4015u16, 0x0Fu8),
        (0x4000, 0x84),
        (0x4001, 0x9A),
        (0x4002, 0x55),
        (0x4003, 0x0A),
        (0x4004, 0x42),
        (0x4005, 0x00),
        (0x4006, 0x80),
        (0x4007, 0x19),
        (0x4008, 0x40),
        (0x400A, 0x33),
        (0x400B, 0x22),
        (0x400C, 0x05),
        (0x400E, 0x07),
        (0x400F, 0x28),
        (0x4017, probe.frame_counter),
    ] {
        a.lda_imm(value).sta_abs(reg);
    }
    if probe.dmc {
        for (reg, value) in [(0x4010u16, 0x8Fu8), (0x4012, 0x00), (0x4013, 0x01), (0x4015, 0x1F)] {
            a.lda_imm(value).sta_abs(reg);
        }
    }
    a.cli();
    let forever = a.pc();
    a.inc_abs(0x0000).jmp(forever);
    let mut irq = Asm::new(0x9000);
    irq.pha().inc_abs(0x0002);
    if probe.ack_frame_irq {
        irq.lda_abs(0x4015);
    }
    if probe.dmc {
        irq.lda_imm(0x1F).sta_abs(0x4015);
    }
    irq.pla().rti();
    let sample: Vec<u8> = vec![
        0x3C, 0x55, 0xAA, 0x0F, 0xF0, 0x33, 0xCC, 0x5A, 0xA5, 0x3C, 0xC3, 0x99, 0x66, 0x0F, 0xF0,
        0x55, 0xAA, 0x3C,
    ];
    build_nrom_irq(
        &a,
        0x8000,
        None,
        Some(0x9000),
        &[(0x9000, &irq.bytes), (0xC000, &sample)],
        &[],
        false,
    )
}

/// Every frame reads both controllers and adds up what it read, from `$20` on. `$10` counts the
/// times the program began, `$11` the frames.
#[allow(dead_code)]
fn input_probe_rom() -> Vec<u8> {
    let mut a = Asm::new(0x8000);
    a.sei().cld().ldx_imm(0xFF).txs().inc_abs(0x0010);
    a.lda_imm(0x80).sta_abs(0x2000);
    let forever = a.pc();
    a.jmp(forever);
    let mut nmi = Asm::new(0x9000);
    nmi.inc_abs(0x0011).lda_imm(1).sta_abs(0x4016).lda_imm(0).sta_abs(0x4016);
    for (port, sum) in [(0x4016u16, 0x0020u16), (0x4017, 0x0021)] {
        nmi.ldx_imm(0);
        let l = nmi.pc();
        nmi.lda_abs(port).lsr().rol_abs(0x0012).inx().cpx_imm(8).bne(l);
        nmi.lda_abs(0x0012).clc().adc_abs(sum).sta_abs(sum);
        nmi.adc_abs(sum + 2).sta_abs(sum + 2);
    }
    nmi.rti();
    build_nrom(&a, 0x8000, Some(0x9000), &[(0x9000, &nmi.bytes)], &test_chr(), false)
}

/// Always changes the registers of an MMC1.
#[allow(dead_code)]
fn mmc1_churn_rom() -> Vec<u8> {
    let mut code = Asm::new(0xE000);
    let l = code.pc();
    code.inc_abs(0x0000).lda_abs(0x0000).sta_abs(0xE000).jmp(l);
    build_mapper_rom(1, 8, 2, &code, &[])
}

fn inputs_for(n: u64) -> Vec<FrameInput> {
    (0..n)
        .map(|i| {
            FrameInput::new(
                if i % 3 == 0 {
                    Buttons::left()
                } else {
                    Buttons::empty()
                },
                if i % 5 == 0 {
                    Buttons::a()
                } else {
                    Buttons::empty()
                },
            )
        })
        .collect()
}

fn changes(base: &Nes, what: &str, tamper: impl Fn(&mut Nes)) {
    let mut t = base.clone();
    tamper(&mut t);
    assert_ne!(
        t.behavior_fingerprint(),
        base.behavior_fingerprint(),
        "竄改「{what}」沒有改變指紋"
    );
}

fn idle_mapper_rom(mapper: u8, prg_banks: usize, chr_banks_8k: usize) -> Vec<u8> {
    let mut code = Asm::new(0xE000);
    let forever = code.pc();
    code.jmp(forever);
    build_mapper_rom(mapper, prg_banks, chr_banks_8k, &code, &[])
}

fn ran(rom: &[u8], frames: u64) -> Nes {
    let mut nes = Nes::from_rom(rom).unwrap();
    for input in inputs_for(frames) {
        nes.run_frame(FrameInput::from(input));
    }
    nes
}

/// 不同機制的合成 ROM：NROM（渲染）、MMC1、UxROM（CHR-RAM）、CNROM、APU、輸入探針。
fn all_kinds_of_rom() -> Vec<(&'static str, Vec<u8>)> {
    vec![
        ("NROM 渲染", rendering_rom()),
        ("MMC1", mmc1_churn_rom()),
        ("UxROM", idle_mapper_rom(2, 8, 0)),
        ("CNROM", idle_mapper_rom(3, 2, 4)),
        ("APU 探針", apu_probe_rom(ApuProbe::DEFAULT)),
        ("輸入探針", input_probe_rom()),
    ]
}

/// (a) 存檔 → 讀檔之後指紋不變；包含「一幀中間」的狀態（單步除錯停下來的位置）。
#[test]
fn fingerprint_survives_save_and_load() {
    for (name, rom) in all_kinds_of_rom() {
        let mut nes = ran(&rom, 20);
        for _ in 0..3000 {
            nes.step_instruction(); // 停在一幀中間
        }
        let before = nes.behavior_fingerprint();
        let saved = nes.save_state();

        // 讀進一個「已經走到別處」的實例，指紋必須回到存檔當時的值。
        let mut other = ran(&rom, 7);
        assert_ne!(
            other.behavior_fingerprint(),
            before,
            "{name}：前提：兩者不同"
        );
        other.load_state(&saved).unwrap();
        assert_eq!(other.behavior_fingerprint(), before, "{name}");

        // 原地存檔再讀檔。
        nes.load_state(&saved).unwrap();
        assert_eq!(nes.behavior_fingerprint(), before, "{name}");
    }
}

/// (b) 輸出（畫面與音訊）開啟、關閉、中途切換，跑相同輸入，指紋逐幀相同。
/// 這正是指紋排除輸出的理由：rollback 重跑時會關閉輸出。
#[test]
fn fingerprint_is_independent_of_the_output_switch() {
    for (name, rom) in all_kinds_of_rom() {
        let mut on = Nes::from_rom(&rom).unwrap();
        let mut off = Nes::from_rom(&rom).unwrap();
        let mut toggled = Nes::from_rom(&rom).unwrap();
        off.set_output_enabled(false);
        for (frame, input) in inputs_for(80).into_iter().enumerate() {
            toggled.set_output_enabled(!(20..50).contains(&frame));
            on.run_frame(FrameInput::from(input));
            off.run_frame(FrameInput::from(input));
            toggled.run_frame(FrameInput::from(input));
            let fp = on.behavior_fingerprint();
            assert_eq!(
                fp,
                off.behavior_fingerprint(),
                "{name}：第 {frame} 幀（關閉）"
            );
            assert_eq!(
                fp,
                toggled.behavior_fingerprint(),
                "{name}：第 {frame} 幀（切換）"
            );
        }
    }
}

/// 沒有任何輸入差異的兩個實例指紋相同；不同的輸入序列則指紋不同。
#[test]
fn fingerprint_follows_the_input_sequence() {
    let rom = input_probe_rom();
    let a = ran(&rom, 30);
    let b = ran(&rom, 30);
    assert_eq!(a.behavior_fingerprint(), b.behavior_fingerprint());

    let mut c = Nes::from_rom(&rom).unwrap();
    for (i, mut input) in inputs_for(30).into_iter().enumerate() {
        if i == 17 {
            input.p2 = input.p2 | Buttons::b();
        }
        c.run_frame(FrameInput::from(input));
    }
    assert_ne!(a.behavior_fingerprint(), c.behavior_fingerprint());
}

/// (c-1) 依類別各竄改一個欄位，指紋都會改變：CPU、RAM、PPU、mapper、APU（外加卡帶 RAM、搖桿）。
#[test]
fn tampering_one_field_per_category_changes_the_fingerprint() {
    let nrom = ran(&rendering_rom(), 5);
    // CPU
    changes(&nrom, "CPU：A 暫存器", |n| n.cpu.a ^= 1);
    changes(&nrom, "CPU：PC", |n| n.cpu.pc ^= 1);
    changes(&nrom, "CPU：狀態旗標", |n| {
        n.cpu.status.toggle(StatusFlags::CARRY)
    });
    changes(&nrom, "CPU：JAM 旗標", |n| n.cpu.jammed ^= true);
    // RAM
    changes(&nrom, "RAM：$0123", |n| n.cpu.bus_mut().ram[0x123] ^= 1);
    changes(&nrom, "RAM：最後一個位元組", |n| {
        n.cpu.bus_mut().ram[0x7FF] ^= 1
    });
    // PPU
    changes(&nrom, "PPU：VRAM", |n| n.cpu.bus_mut().ppu.vram[5] ^= 1);
    changes(&nrom, "PPU：調色盤", |n| {
        n.cpu.bus_mut().ppu.palette[3] ^= 1
    });
    changes(&nrom, "PPU：OAM", |n| n.cpu.bus_mut().ppu.oam[200] ^= 1);
    changes(&nrom, "PPU：PPUCTRL", |n| n.cpu.bus_mut().ppu.ctrl ^= 1);
    changes(&nrom, "PPU：loopy v", |n| n.cpu.bus_mut().ppu.v ^= 1);
    changes(&nrom, "PPU：loopy t", |n| n.cpu.bus_mut().ppu.t ^= 1);
    changes(&nrom, "PPU：fine X", |n| n.cpu.bus_mut().ppu.fine_x ^= 1);
    changes(&nrom, "PPU：loopy w", |n| n.cpu.bus_mut().ppu.w ^= true);
    changes(&nrom, "PPU：dot", |n| n.cpu.bus_mut().ppu.cycle ^= 1);
    changes(&nrom, "PPU：奇偶幀", |n| {
        n.cpu.bus_mut().ppu.odd_frame ^= true
    });
    // 搖桿
    changes(&nrom, "搖桿：移位暫存器", |n| {
        n.cpu.bus_mut().joypads[1].shift ^= 1
    });
    // PRG-RAM
    changes(&nrom, "卡帶：PRG-RAM", |n| {
        n.cpu.bus_mut().cartridge.prg_ram[77] ^= 1
    });

    // mapper（MMC1 的暫存器、UxROM 的 bank）與 CHR-RAM
    let mmc1 = ran(&mmc1_churn_rom(), 5);
    changes(&mmc1, "mapper：MMC1 PRG bank 暫存器", |n| {
        let cart = &mut n.cpu.bus_mut().cartridge;
        let bank = cart.read_prg(0x8100);
        // 寫 5 次把 bank 暫存器改成另一個值。
        let target = (bank ^ 1) & 0x0F;
        for i in 0..5 {
            cart.write_prg(0xE000, (target >> i) & 1, false);
        }
    });
    changes(
        &mmc1,
        "mapper：MMC1 移位暫存器（寫到一半）",
        |n| n.cpu.bus_mut().cartridge.write_prg(0x8000, 1, false),
    );
    let ux = ran(&idle_mapper_rom(2, 8, 0), 5);
    changes(&ux, "mapper：UxROM bank", |n| {
        n.cpu.bus_mut().cartridge.write_prg(0x8000, 3, false)
    });
    changes(&ux, "卡帶：CHR-RAM", |n| {
        n.cpu.bus_mut().cartridge.chr_ram[1234] ^= 1
    });
    let cn = ran(&idle_mapper_rom(3, 2, 4), 5);
    changes(&cn, "mapper：CNROM CHR bank", |n| {
        n.cpu.bus_mut().cartridge.write_prg(0x8000, 2, false)
    });

    // APU
    let apu = ran(&apu_probe_rom(ApuProbe::DEFAULT), 5);
    changes(&apu, "APU：pulse 1 計時器週期", |n| {
        n.cpu.bus_mut().apu.pulse[0].timer_period ^= 1
    });
    changes(&apu, "APU：pulse 2 長度計數器", |n| {
        n.cpu.bus_mut().apu.pulse[1].length.counter ^= 1
    });
    changes(&apu, "APU：triangle 序列位置", |n| {
        n.cpu.bus_mut().apu.triangle.seq ^= 1
    });
    changes(&apu, "APU：noise 移位暫存器", |n| {
        n.cpu.bus_mut().apu.noise.shift ^= 1
    });
    changes(&apu, "APU：DMC 輸出電平", |n| {
        n.cpu.bus_mut().apu.dmc.output_level ^= 1
    });
    changes(&apu, "APU：DMC IRQ 旗標", |n| {
        n.cpu.bus_mut().apu.dmc.irq_flag ^= true
    });
    changes(&apu, "APU：frame counter 步驟", |n| {
        n.cpu.bus_mut().apu.frame.step ^= 1
    });
    changes(&apu, "APU：frame counter 模式", |n| {
        n.cpu.bus_mut().apu.frame.mode5 ^= true
    });
}

/// Whatever byte of a save state is changed: either the state is refused, or the machine it holds is
/// another one and has another fingerprint. Only what a cartridge never changes is left out.
#[test]
fn every_serialized_state_field_is_covered_by_the_fingerprint() {
    let mut checked = 0usize;
    for (name, rom) in all_kinds_of_rom() {
        let nes = ran(&rom, 12);
        let base = nes.behavior_fingerprint();
        let bytes = nes.save_state();
        for at in HEADER_LEN..bytes.len() {
            // In memory that is all the same, a byte here and there will do.
            let around = &bytes[at.saturating_sub(32)..(at + 32).min(bytes.len())];
            if around.iter().all(|b| *b == bytes[at]) && at % 61 != 0 {
                continue;
            }
            let mut changed = bytes.clone();
            changed[at] ^= 1;
            let Ok(mut other) = decode(&changed) else {
                continue;
            };
            let cart = &mut other.cpu.bus_mut().cartridge;
            let ours = &nes.cpu.bus().cartridge;
            cart.info = ours.info;
            cart.rom_id = ours.rom_id;
            if let (Mapper::Nrom(_), Mapper::Nrom(_)) = (&cart.mapper, &ours.mapper) {
                cart.mapper = ours.mapper;
            }
            if other.save_state() == bytes {
                continue;
            }
            assert_ne!(other.behavior_fingerprint(), base, "{name}: byte {at}");
            checked += 1;
        }
    }
    assert!(checked > 1000, "{checked} fields were checked");
}

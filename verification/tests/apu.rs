//! The APU, by itself, on the bus and through the CPU.

use nes_core::apu::channels::{
    Envelope, Noise, Pulse, Triangle, DMC_RATE_TABLE, DMC_STALL_CYCLES, LENGTH_TABLE,
    NOISE_PERIOD_TABLE,
};
use nes_core::apu::output::{
    AudioOut, MixSegment, ALL_CHANNELS, CHANNEL_PULSE1, CPU_CLOCK, DEFAULT_SAMPLE_RATE,
    MAX_BUFFERED_SAMPLES, MAX_SAMPLE_RATE, MIN_SAMPLE_RATE, TICKS_PER_CYCLE,
};
use nes_core::apu::Apu;
use nes_core::bus::Bus;
use nes_core::cartridge::Cartridge;
use nes_core::cpu::Cpu;
use nes_core::state::wire::Writer;
use nes_core::{Buttons, FrameInput, Nes, StateError, StatusFlags};

/// A small assembler for test programs.
#[allow(dead_code)]
struct Asm {
    origin: u16,
    bytes: Vec<u8>,
}

#[allow(dead_code)]
impl Asm {
    fn new(origin: u16) -> Asm {
        Asm { origin, bytes: Vec::new() }
    }

    fn pc(&self) -> u16 {
        self.origin + self.bytes.len() as u16
    }

    fn op(&mut self, bytes: &[u8]) -> &mut Asm {
        self.bytes.extend_from_slice(bytes);
        self
    }

    fn op_abs(&mut self, opcode: u8, addr: u16) -> &mut Asm {
        self.op(&[opcode, addr as u8, (addr >> 8) as u8])
    }

    fn branch(&mut self, opcode: u8, target: u16) -> &mut Asm {
        let next = self.pc().wrapping_add(2);
        self.op(&[opcode, target.wrapping_sub(next) as u8])
    }

    fn jmp(&mut self, addr: u16) -> &mut Asm {
        self.op_abs(0x4C, addr)
    }

    fn lda_imm(&mut self, v: u8) -> &mut Asm {
        self.op(&[0xA9, v])
    }

    fn ldx_imm(&mut self, v: u8) -> &mut Asm {
        self.op(&[0xA2, v])
    }

    fn and_imm(&mut self, v: u8) -> &mut Asm {
        self.op(&[0x29, v])
    }

    fn cmp_imm(&mut self, v: u8) -> &mut Asm {
        self.op(&[0xC9, v])
    }

    fn cpx_imm(&mut self, v: u8) -> &mut Asm {
        self.op(&[0xE0, v])
    }

    fn lda_abs(&mut self, addr: u16) -> &mut Asm {
        self.op_abs(0xAD, addr)
    }

    fn lda_abs_x(&mut self, addr: u16) -> &mut Asm {
        self.op_abs(0xBD, addr)
    }

    fn sta_abs(&mut self, addr: u16) -> &mut Asm {
        self.op_abs(0x8D, addr)
    }

    fn sta_abs_x(&mut self, addr: u16) -> &mut Asm {
        self.op_abs(0x9D, addr)
    }

    fn adc_abs(&mut self, addr: u16) -> &mut Asm {
        self.op_abs(0x6D, addr)
    }

    fn inc_abs(&mut self, addr: u16) -> &mut Asm {
        self.op_abs(0xEE, addr)
    }

    fn rol_abs(&mut self, addr: u16) -> &mut Asm {
        self.op_abs(0x2E, addr)
    }

    fn bit_abs(&mut self, addr: u16) -> &mut Asm {
        self.op_abs(0x2C, addr)
    }

    fn bne(&mut self, target: u16) -> &mut Asm {
        self.branch(0xD0, target)
    }

    fn beq(&mut self, target: u16) -> &mut Asm {
        self.branch(0xF0, target)
    }

    fn bpl(&mut self, target: u16) -> &mut Asm {
        self.branch(0x10, target)
    }

    fn bvs(&mut self, target: u16) -> &mut Asm {
        self.branch(0x70, target)
    }

    fn bvc(&mut self, target: u16) -> &mut Asm {
        self.branch(0x50, target)
    }

    fn inx(&mut self) -> &mut Asm {
        self.op(&[0xE8])
    }

    fn txa(&mut self) -> &mut Asm {
        self.op(&[0x8A])
    }

    fn txs(&mut self) -> &mut Asm {
        self.op(&[0x9A])
    }

    fn pha(&mut self) -> &mut Asm {
        self.op(&[0x48])
    }

    fn pla(&mut self) -> &mut Asm {
        self.op(&[0x68])
    }

    fn lsr(&mut self) -> &mut Asm {
        self.op(&[0x4A])
    }

    fn clc(&mut self) -> &mut Asm {
        self.op(&[0x18])
    }

    fn cli(&mut self) -> &mut Asm {
        self.op(&[0x58])
    }

    fn sei(&mut self) -> &mut Asm {
        self.op(&[0x78])
    }

    fn cld(&mut self) -> &mut Asm {
        self.op(&[0xD8])
    }

    fn rti(&mut self) -> &mut Asm {
        self.op(&[0x40])
    }

    fn set_ppu_addr(&mut self, addr: u16) -> &mut Asm {
        self.lda_imm((addr >> 8) as u8)
            .sta_abs(0x2006)
            .lda_imm(addr as u8)
            .sta_abs(0x2006)
    }
}

/// A ROM with 32 KB of program at `$8000` and 8 KB of patterns.
#[allow(dead_code)]
fn build_nrom_irq(
    code: &Asm,
    reset: u16,
    nmi: Option<u16>,
    irq: Option<u16>,
    extra: &[(u16, &[u8])],
    chr: &[u8],
    vertical: bool,
) -> Vec<u8> {
    let mut rom = vec![0u8; 16];
    rom[0..4].copy_from_slice(b"NES\x1A");
    rom[4] = 2;
    rom[5] = 1;
    rom[6] = vertical as u8;
    let mut prg = vec![0u8; 0x8000];
    let start = (code.origin - 0x8000) as usize;
    prg[start..start + code.bytes.len()].copy_from_slice(&code.bytes);
    for (addr, bytes) in extra {
        let at = (*addr - 0x8000) as usize;
        prg[at..at + bytes.len()].copy_from_slice(bytes);
    }
    for (at, vector) in [
        (0x7FFA, nmi.unwrap_or(reset)),
        (0x7FFC, reset),
        (0x7FFE, irq.unwrap_or(reset)),
    ] {
        prg[at] = vector as u8;
        prg[at + 1] = (vector >> 8) as u8;
    }
    rom.extend_from_slice(&prg);
    let mut patterns = vec![0u8; 0x2000];
    patterns[..chr.len()].copy_from_slice(chr);
    rom.extend_from_slice(&patterns);
    rom
}

#[allow(dead_code)]
fn build_nrom(
    code: &Asm,
    reset: u16,
    nmi: Option<u16>,
    extra: &[(u16, &[u8])],
    chr: &[u8],
    vertical: bool,
) -> Vec<u8> {
    build_nrom_irq(code, reset, nmi, None, extra, chr, vertical)
}

/// What the APU probe does.
#[allow(dead_code)]
#[derive(Clone, Copy)]
struct ApuProbe {
    frame_counter: u8,
    ack_frame_irq: bool,
    dmc: bool,
}

#[allow(dead_code)]
impl ApuProbe {
    const DEFAULT: ApuProbe = ApuProbe { frame_counter: 0x00, ack_frame_irq: true, dmc: true };
}

/// All channels, the frame interrupt and the DMC interrupt. The handler counts in `$02`, the main
/// loop in `$00`.
#[allow(dead_code)]
fn apu_probe_rom(probe: ApuProbe) -> Vec<u8> {
    let mut a = Asm::new(0x8000);
    a.sei().cld().ldx_imm(0xFF).txs();
    for (reg, value) in [
        (0x4015u16, 0x0Fu8),
        (0x4000, 0x84),
        (0x4001, 0x9A),
        (0x4002, 0x55),
        (0x4003, 0x0A),
        (0x4004, 0x42),
        (0x4005, 0x00),
        (0x4006, 0x80),
        (0x4007, 0x19),
        (0x4008, 0x40),
        (0x400A, 0x33),
        (0x400B, 0x22),
        (0x400C, 0x05),
        (0x400E, 0x07),
        (0x400F, 0x28),
        (0x4017, probe.frame_counter),
    ] {
        a.lda_imm(value).sta_abs(reg);
    }
    if probe.dmc {
        for (reg, value) in [(0x4010u16, 0x8Fu8), (0x4012, 0x00), (0x4013, 0x01), (0x4015, 0x1F)] {
            a.lda_imm(value).sta_abs(reg);
        }
    }
    a.cli();
    let forever = a.pc();
    a.inc_abs(0x0000).jmp(forever);
    let mut irq = Asm::new(0x9000);
    irq.pha().inc_abs(0x0002);
    if probe.ack_frame_irq {
        irq.lda_abs(0x4015);
    }
    if probe.dmc {
        irq.lda_imm(0x1F).sta_abs(0x4015);
    }
    irq.pla().rti();
    let sample: Vec<u8> = vec![
        0x3C, 0x55, 0xAA, 0x0F, 0xF0, 0x33, 0xCC, 0x5A, 0xA5, 0x3C, 0xC3, 0x99, 0x66, 0x0F, 0xF0,
        0x55, 0xAA, 0x3C,
    ];
    build_nrom_irq(
        &a,
        0x8000,
        None,
        Some(0x9000),
        &[(0x9000, &irq.bytes), (0xC000, &sample)],
        &[],
        false,
    )
}

fn cartridge_of(rom: &[u8]) -> Cartridge {
    Cartridge::from_ines(rom).unwrap()
}

/// 只會 `JMP` 自己的 ROM 上的匯流排。
fn idle_bus() -> Bus {
    let mut a = Asm::new(0x8000);
    let l = a.pc();
    a.jmp(l);
    Bus::new(cartridge_of(&build_nrom(&a, 0x8000, None, &[], &[], false)))
}

/// 有 DMC 取樣資料（`$C000` 起）的匯流排。
fn dmc_bus() -> Bus {
    Bus::new(cartridge_of(&apu_probe_rom(ApuProbe::DEFAULT)))
}

const ONE_SECOND: u32 = 1_789_773;

fn run(bus: &mut Bus, cycles: u32) {
    let mut left = cycles;
    while left > 0 {
        let n = left.min(200);
        bus.tick(n as u8);
        left -= n;
    }
}

type Tamper = fn(&mut Apu);

fn next_random(state: &mut u64) -> u64 {
    *state ^= *state << 13;
    *state ^= *state >> 7;
    *state ^= *state << 17;
    *state
}

/// The state of an APU, as a save state keeps it.
fn saved(apu: &Apu) -> Vec<u8> {
    let mut w = Writer::new();
    apu.save(&mut w);
    w.bytes
}

/// A sample rate in microhertz.
fn hz(rate: f64) -> u64 {
    (rate * 1e6).round() as u64
}

/// The clock of the CPU, in Hz.
fn cpu_clock_hz() -> f64 {
    CPU_CLOCK as f64 / 1e7
}

/// How many samples end in segments.
fn samples_in(segments: &[MixSegment]) -> usize {
    segments.iter().filter(|s| s.period > 0).count()
}

/// The mean level of the pulse channels in each sample.
fn pulse_means(segments: &[MixSegment]) -> Vec<f64> {
    let mut means = Vec::new();
    let mut sum = 0.0;
    for s in segments {
        sum += f64::from(s.pulse) * s.ticks as f64;
        if s.period > 0 {
            means.push(sum / s.period as f64);
            sum = 0.0;
        }
    }
    means
}

/// The samples that wait, in segments.
fn sound_of(bus: &mut Bus) -> Vec<MixSegment> {
    let mut out = Vec::new();
    bus.apu.take_samples(&mut out);
    out
}

// ---- 長度計數器與 $4015 -------------------------------------------------------

#[test]
fn length_counter_loads_every_table_entry() {
    for index in 0..32u8 {
        let mut bus = idle_bus();
        bus.write(0x4015, 0x01);
        bus.write(0x4000, 0x00);
        bus.write(0x4003, index << 3);
        run(&mut bus, 3); // 載入在寫入之後的下一個 cycle 結束時生效
        assert_eq!(
            bus.apu.pulse[0].length.counter, LENGTH_TABLE[index as usize],
            "索引 {index}"
        );
    }
}

#[test]
fn disabled_channel_ignores_length_loads_and_the_counter_is_cleared() {
    let mut bus = idle_bus();
    bus.write(0x4015, 0x01);
    bus.write(0x4003, 0x08);
    run(&mut bus, 3);
    assert_eq!(bus.peek(0x4015) & 0x01, 1);

    bus.write(0x4015, 0x00);
    assert_eq!(bus.peek(0x4015) & 0x01, 0, "停用立即清掉長度計數器");
    bus.write(0x4003, 0x08);
    run(&mut bus, 3);
    assert_eq!(bus.peek(0x4015) & 0x01, 0, "停用時不能載入");
}

#[test]
fn status_register_reports_each_channel_and_bit5_is_open_bus() {
    let mut bus = idle_bus();
    bus.write(0x4015, 0x0F);
    for reg in [0x4003, 0x4007, 0x400B, 0x400F] {
        bus.write(reg, 0x08);
    }
    run(&mut bus, 3);
    // bit 5 來自 open bus：先讓匯流排上留 $FF 再讀。
    bus.write(0x0000, 0xFF);
    let _ = bus.read(0x0000);
    assert_eq!(bus.read(0x4015) & 0x3F, 0x2F);
    bus.write(0x0000, 0x00);
    let _ = bus.read(0x0000);
    assert_eq!(bus.read(0x4015) & 0x3F, 0x0F);
}

#[test]
fn reading_4015_does_not_change_the_open_bus_latch() {
    let mut bus = idle_bus();
    bus.write(0x0000, 0x77);
    let _ = bus.read(0x0000);
    let _ = bus.read(0x4015);
    assert_eq!(
        bus.read(0x5000),
        0x77,
        "$4015 是內部暫存器，不會驅動外部匯流排"
    );
}

// ---- frame counter ----------------------------------------------------------

#[test]
fn frame_irq_sets_reads_clear_and_inhibit_blocks_it() {
    let mut bus = idle_bus();
    bus.write(0x4017, 0x00);
    run(&mut bus, 29_800);
    assert!(!bus.apu.irq(), "29830 cycle 之前不該有 frame IRQ");
    run(&mut bus, 100);
    assert!(bus.apu.irq());
    assert_eq!(bus.peek(0x4015) & 0x40, 0x40);
    assert_eq!(bus.peek(0x4015) & 0x40, 0x40, "peek 沒有副作用");

    let status = bus.read(0x4015);
    assert_eq!(status & 0x40, 0x40);
    assert!(!bus.apu.irq(), "讀 $4015 清掉旗標");

    run(&mut bus, 30_000);
    assert!(bus.apu.irq(), "下一幀又會設起來");
    bus.write(0x4017, 0x40);
    assert!(!bus.apu.irq(), "寫入 IRQ 抑制立即清旗標");
    run(&mut bus, 90_000);
    assert!(!bus.apu.irq());

    bus.write(0x4017, 0x80); // 5 步模式沒有 frame IRQ
    run(&mut bus, 90_000);
    assert!(!bus.apu.irq());
}

#[test]
fn writing_4017_with_bit7_clocks_the_length_counter_immediately_and_zero_does_not() {
    let mut bus = idle_bus();
    bus.write(0x4015, 0x01);
    bus.write(0x4000, 0x00);
    bus.write(0x4003, 0x08); // 254
    run(&mut bus, 3);
    assert_eq!(bus.apu.pulse[0].length.counter, 254);

    bus.write(0x4017, 0x00);
    run(&mut bus, 8);
    assert_eq!(bus.apu.pulse[0].length.counter, 254, "寫 $00 不會立即時脈");

    bus.write(0x4017, 0x80);
    run(&mut bus, 8);
    assert_eq!(
        bus.apu.pulse[0].length.counter, 253,
        "寫 $80 立即 half-frame 時脈"
    );
}

#[test]
fn length_counter_counts_down_at_half_frames_and_halt_freezes_it() {
    let mut bus = idle_bus();
    bus.write(0x4015, 0x03);
    bus.write(0x4000, 0x00); // 不 halt
    bus.write(0x4003, 0x18); // 索引 3 → 2
    bus.write(0x4004, 0x20); // halt
    bus.write(0x4007, 0x18);
    run(&mut bus, 3);
    assert_eq!(bus.peek(0x4015) & 3, 3);
    run(&mut bus, 14_920); // 第一個 half-frame（14913）：2 → 1
    assert_eq!(bus.peek(0x4015) & 3, 3);
    run(&mut bus, 15_000); // 第二個 half-frame（29829）：1 → 0
    assert_eq!(
        bus.peek(0x4015) & 3,
        2,
        "pulse 1 已經歸零，halt 的 pulse 2 還在"
    );
}

// ---- 各聲道 -----------------------------------------------------------------

#[test]
fn sweep_negate_is_ones_complement_on_pulse1_and_twos_complement_on_pulse2() {
    let mut p1 = Pulse::new(true);
    let mut p2 = Pulse::new(false);
    for p in [&mut p1, &mut p2] {
        p.write_register(2, 0x00);
        p.write_register(3, 0x01); // 週期 $100
        p.write_register(1, 0x80 | 0x08 | 0x01); // 啟用、negate、shift 1
        p.tick_sweep();
    }
    assert_eq!(p1.timer_period, 0x100 - 0x80 - 1);
    assert_eq!(p2.timer_period, 0x100 - 0x80);
}

#[test]
fn sweep_raises_the_period_and_mutes_on_overflow() {
    let mut p = Pulse::new(false);
    p.write_register(2, 0x00);
    p.write_register(3, 0x01);
    p.write_register(1, 0x80 | 0x01); // 啟用、往上、shift 1
    p.tick_sweep();
    assert_eq!(p.timer_period, 0x100 + 0x80);

    // 週期 $7FF 加上任何位移都超過 $7FF：即使 sweep 關閉也會靜音。
    let mut m = Pulse::new(false);
    m.write_register(0, 0xBF);
    m.set_enabled(true);
    m.write_register(2, 0xFF);
    m.write_register(3, 0x0F); // 週期 $7FF、長度索引 1
    m.length.apply_pending();
    assert!(m.length.counter > 0);
    for _ in 0..16 {
        m.step_sequencer();
        assert_eq!(m.output(), 0);
    }
}

#[test]
fn pulse_is_muted_below_period_8_and_sounds_above() {
    let mut p = Pulse::new(false);
    p.write_register(0, 0xBF); // duty 2、halt、固定音量 15
    p.set_enabled(true);
    p.write_register(2, 0x04);
    p.write_register(3, 0x08);
    p.length.apply_pending();
    for _ in 0..16 {
        p.step_sequencer();
        assert_eq!(p.output(), 0, "週期 < 8 靜音");
    }
    p.write_register(2, 0x40);
    let mut outputs = Vec::new();
    for _ in 0..16 {
        p.step_sequencer();
        outputs.push(p.output());
    }
    assert!(outputs.contains(&15) && outputs.contains(&0));
}

#[test]
fn envelope_decays_by_one_every_period_plus_one_ticks_and_can_loop() {
    let mut e = Envelope::default();
    e.write(0x02); // 週期 2、不 loop、非固定音量
    e.restart();
    e.tick();
    assert_eq!(e.output(), 15);
    for expected in (0..15).rev() {
        for _ in 0..3 {
            e.tick();
        }
        assert_eq!(e.output(), expected);
    }
    for _ in 0..30 {
        e.tick();
    }
    assert_eq!(e.output(), 0, "不 loop 時停在 0");

    e.write(0x22); // loop
    for _ in 0..3 {
        e.tick();
    }
    assert_eq!(e.output(), 15, "loop 時回到 15");

    e.write(0x1A); // 固定音量 10
    assert_eq!(e.output(), 10);
}

#[test]
fn triangle_walks_the_32_step_sequence_only_while_both_counters_are_nonzero() {
    let mut t = Triangle::new();
    t.set_enabled(true);
    t.write_register(0, 0xFF); // control、reload 127
    t.write_register(2, 0x10);
    t.write_register(3, 0x08);
    t.length.apply_pending();
    t.tick_linear();
    assert_eq!(t.linear_counter, 0x7F);

    let mut seen = vec![t.output()];
    for _ in 0..31 {
        t.step_sequencer();
        seen.push(t.output());
    }
    let expected: Vec<u8> = (0..=15).rev().chain(0..=15).collect();
    assert_eq!(seen, expected);

    // linear counter 為 0：序列停住。
    let mut z = Triangle::new();
    z.set_enabled(true);
    z.write_register(0, 0x00); // 不 control、reload 0
    z.write_register(3, 0x08);
    z.length.apply_pending();
    z.tick_linear();
    assert_eq!(z.linear_counter, 0);
    let before = z.seq;
    z.step_sequencer();
    assert_eq!(z.seq, before);
}

#[test]
fn noise_lfsr_has_the_documented_periods() {
    let mut long = Noise::new();
    let mut steps = 0;
    loop {
        long.step_shift_register();
        steps += 1;
        if long.shift == 1 {
            break;
        }
    }
    assert_eq!(steps, 32767, "長模式週期");

    let mut short = Noise::new();
    short.write_register(2, 0x80);
    let mut steps = 0;
    loop {
        short.step_shift_register();
        steps += 1;
        if short.shift == 1 {
            break;
        }
    }
    assert_eq!(steps, 93, "短模式週期");
}

#[test]
fn noise_and_dmc_rate_tables_are_ntsc() {
    assert_eq!(NOISE_PERIOD_TABLE[0], 4);
    assert_eq!(NOISE_PERIOD_TABLE[15], 4068);
    assert_eq!(DMC_RATE_TABLE[0], 428);
    assert_eq!(DMC_RATE_TABLE[15], 54);
}

// ---- DMC --------------------------------------------------------------------

#[test]
fn dmc_direct_load_sets_the_output_level() {
    let mut bus = idle_bus();
    bus.write(0x4011, 0xFF);
    assert_eq!(bus.apu.dmc.output_level, 0x7F);
    assert_eq!(bus.apu.debug().dmc.output_level, 0x7F);
}

#[test]
fn dmc_fetch_stalls_the_cpu_and_raises_an_irq_at_the_end_of_the_sample() {
    let mut bus = dmc_bus();
    bus.write(0x4010, 0x8F); // IRQ 致能、最快
    bus.write(0x4012, 0x00); // $C000
    bus.write(0x4013, 0x00); // 1 byte
    bus.write(0x4015, 0x10);
    assert!(!bus.apu.irq());

    let before = bus.total_cycles();
    bus.tick(10);
    assert_eq!(
        bus.total_cycles(),
        before + 10 + u64::from(DMC_STALL_CYCLES),
        "抓一個 byte 暫停 CPU {DMC_STALL_CYCLES} 個 cycle"
    );
    assert!(bus.apu.irq(), "取樣抓完（不 loop）就設 DMC IRQ");
    assert_eq!(bus.peek(0x4015) & 0x80, 0x80);
    assert_eq!(bus.peek(0x4015) & 0x10, 0, "bytes remaining = 0");

    bus.write(0x4015, 0x00);
    assert!(!bus.apu.irq(), "寫 $4015 清 DMC IRQ");
}

#[test]
fn dmc_loop_restarts_the_sample_without_an_irq_and_keeps_stalling() {
    let mut bus = dmc_bus();
    bus.write(0x4010, 0x4F); // loop、rate 15（54 cycle／bit）
    bus.write(0x4012, 0x00);
    bus.write(0x4013, 0x00);
    bus.write(0x4015, 0x10);
    let start = bus.total_cycles();
    run(&mut bus, 3000);
    let stalled = bus.total_cycles() - start - 3000;
    assert_eq!(stalled % u64::from(DMC_STALL_CYCLES), 0);
    let fetches = stalled / u64::from(DMC_STALL_CYCLES);
    assert!(
        (5..=9).contains(&fetches),
        "3000 cycle 約抓 7 個 byte，實際 {fetches}"
    );
    assert!(!bus.apu.irq(), "loop 時沒有 IRQ");
}

#[test]
fn dmc_output_follows_the_sample_bits() {
    let mut bus = dmc_bus();
    bus.write(0x4011, 0x40);
    bus.write(0x4010, 0x4F);
    bus.write(0x4012, 0x00);
    bus.write(0x4013, 0x00);
    bus.write(0x4015, 0x10);
    let mut levels = std::collections::BTreeSet::new();
    for _ in 0..200 {
        run(&mut bus, 54);
        levels.insert(bus.apu.dmc.output_level);
    }
    assert!(levels.len() >= 3, "輸出電平隨取樣資料上下移動：{levels:?}");
    assert!(levels.iter().any(|l| *l < 0x40) && levels.iter().any(|l| *l > 0x40));
    assert!(levels.iter().all(|l| *l < 128));
}

// ---- 計時的一致性 -------------------------------------------------------------

#[test]
fn apu_cycle_count_stays_in_step_with_the_bus_across_register_accesses() {
    let mut bus = dmc_bus();
    let regs = [0x4000u16, 0x4003, 0x4008, 0x400F, 0x4010, 0x4015, 0x4017];
    for (i, reg) in regs.iter().cycle().take(200).enumerate() {
        if i % 3 == 0 {
            let _ = bus.read(0x4015);
        } else {
            bus.write(*reg, (i * 7) as u8);
        }
        bus.tick(1 + (i % 5) as u8);
        assert_eq!(bus.apu.cycles, bus.total_cycles(), "第 {i} 次存取之後");
        assert_eq!(bus.apu.ahead, 0);
    }
}

#[test]
fn default_apu_state_is_structurally_valid_and_debug_reflects_registers() {
    let mut bus = idle_bus();
    assert!(bus.apu.is_structurally_valid());
    bus.write(0x4015, 0x01);
    bus.write(0x4000, 0xBF);
    bus.write(0x4002, 0x34);
    bus.write(0x4003, 0x0A);
    bus.write(0x4017, 0x40);
    run(&mut bus, 10);
    let d = bus.apu.debug();
    assert!(d.pulse[0].enabled);
    assert_eq!(d.pulse[0].duty, 2);
    assert_eq!(d.pulse[0].timer_period, 0x234);
    assert!(d.pulse[0].halt && d.pulse[0].constant);
    assert_eq!(d.pulse[0].volume, 15);
    assert!(d.frame_inhibit_irq && !d.frame_mode5);
    assert_eq!(d.status & 1, 1);
    assert!(bus.apu.is_structurally_valid());
}

// ---- CPU 的 IRQ：level-triggered、I 旗標與 CLI/SEI/PLP 的延遲 ------------------------

fn cpu_with(program: &Asm) -> Cpu {
    let mut handler = Asm::new(0x8100);
    handler.lda_imm(0x77);
    let l = handler.pc();
    handler.jmp(l);
    let rom = build_nrom_irq(
        program,
        0x8000,
        None,
        Some(0x8100),
        &[(0x8100, &handler.bytes)],
        &[],
        false,
    );
    let mut cpu = Cpu::new(Bus::new(cartridge_of(&rom)));
    cpu.pc = 0x8000;
    cpu
}

/// 讓 APU 拉起 frame IRQ 線（直接設旗標，省得等 29830 個 cycle）。
fn assert_irq_line(cpu: &mut Cpu) {
    cpu.bus_mut().apu.frame_irq = true;
    assert!(cpu.bus().irq_line());
}

#[test]
fn cli_delays_a_pending_irq_by_one_instruction() {
    let mut a = Asm::new(0x8000);
    a.cli().inx().inx().inx();
    let mut cpu = cpu_with(&a);
    assert!(cpu.status.contains(StatusFlags::INTERRUPT));
    assert_irq_line(&mut cpu);

    cpu.step(); // CLI
    assert!(!cpu.status.contains(StatusFlags::INTERRUPT));
    assert_eq!(cpu.pc, 0x8001);
    cpu.step(); // INX：IRQ 已經在等，但 CLI 的效果要晚一條指令
    assert_eq!((cpu.x, cpu.pc), (1, 0x8002));
    let sp = cpu.sp;
    assert_eq!(cpu.step(), 7, "接著才服務 IRQ");
    assert_eq!(cpu.pc, 0x8100);
    assert_eq!(cpu.sp, sp.wrapping_sub(3));
    assert!(cpu.status.contains(StatusFlags::INTERRUPT));
}

#[test]
fn sei_does_not_stop_an_irq_that_was_already_pending() {
    let mut a = Asm::new(0x8000);
    a.sei().inx().inx();
    let mut cpu = cpu_with(&a);
    cpu.status.remove(StatusFlags::INTERRUPT);
    assert_irq_line(&mut cpu);

    cpu.step(); // SEI
    assert_eq!(cpu.pc, 0x8001);
    assert_eq!(cpu.step(), 7, "SEI 的效果晚一條指令：這一步仍然服務 IRQ");
    assert_eq!((cpu.pc, cpu.x), (0x8100, 0));
}

#[test]
fn plp_that_sets_i_still_lets_one_pending_irq_through() {
    let mut a = Asm::new(0x8000);
    a.lda_imm(0x24).pha();
    a.bytes.push(0x28); // PLP
    a.inx();
    let mut cpu = cpu_with(&a);
    cpu.status.remove(StatusFlags::INTERRUPT);

    cpu.step(); // LDA
    cpu.step(); // PHA
    assert_irq_line(&mut cpu); // IRQ 線在 PLP 之前才拉高（否則 LDA 之後就被服務了）
    cpu.step(); // PLP：I 變成 1
    assert!(cpu.status.contains(StatusFlags::INTERRUPT));
    assert_eq!(cpu.step(), 7);
    assert_eq!((cpu.pc, cpu.x), (0x8100, 0));
}

#[test]
fn irq_line_is_level_triggered_and_clearing_the_source_cancels_it() {
    let mut a = Asm::new(0x8000);
    a.lda_abs(0x4015).cli().inx().inx().inx();
    let mut cpu = cpu_with(&a);
    assert_irq_line(&mut cpu);
    for _ in 0..5 {
        cpu.step();
    }
    assert_eq!(cpu.x, 3, "讀 $4015 已經清掉旗標，CLI 之後沒有 IRQ");
    assert_ne!(cpu.pc, 0x8100);

    // 只要線一直是高的、I = 0，就會反覆服務（處理常式不確認）。
    let mut b = Asm::new(0x8000);
    b.cli().inx().inx();
    let mut cpu = cpu_with(&b);
    assert_irq_line(&mut cpu);
    let mut serviced = 0;
    for _ in 0..12 {
        if cpu.step() == 7 {
            serviced += 1;
        }
    }
    assert_eq!(
        serviced, 1,
        "服務一次之後 I = 1，處理常式在原地跑，不會重入"
    );
}

#[test]
fn an_irq_is_not_taken_while_the_i_flag_is_set() {
    let mut a = Asm::new(0x8000);
    a.inx().inx().inx().inx();
    let mut cpu = cpu_with(&a);
    assert_irq_line(&mut cpu);
    for _ in 0..4 {
        assert_eq!(cpu.step(), 2);
    }
    assert_eq!(cpu.x, 4);
}

#[test]
fn frame_irq_reaches_the_cpu_through_the_real_apu() {
    // 不手動設旗標：$4017 = 0、CLI，等真正的 frame IRQ。
    let mut a = Asm::new(0x8000);
    a.lda_imm(0x00).sta_abs(0x4017).cli();
    let l = a.pc();
    a.inx().jmp(l);
    let mut cpu = cpu_with(&a);
    let mut cycles = 0u64;
    while cpu.pc != 0x8100 && cycles < 40_000 {
        cycles += u64::from(cpu.step());
    }
    assert_eq!(cpu.pc, 0x8100);
    assert!(
        (29_800..=29_860).contains(&cycles),
        "在 {cycles} cycle 進入 IRQ 處理常式"
    );
}

// ---- 存檔 -------------------------------------------------------------------

fn probe_nes() -> Nes {
    Nes::from_rom(&apu_probe_rom(ApuProbe::DEFAULT)).unwrap()
}

#[test]
fn probe_rom_takes_frame_and_dmc_irqs() {
    let mut nes = probe_nes();
    for _ in 0..30 {
        nes.run_frame(FrameInput::from([Buttons::empty(); 2]));
    }
    assert!(
        nes.peek(0x0002) >= 30,
        "IRQ 處理常式被呼叫 {} 次",
        nes.peek(0x0002)
    );
    assert!(nes.peek(0x0000) > 0, "主迴圈有在跑");
}

#[test]
fn apu_state_round_trips_through_save_state_and_replays_identically() {
    let mut a = probe_nes();
    for _ in 0..30 {
        a.run_frame(FrameInput::from([Buttons::empty(); 2]));
    }
    let saved = a.save_state();
    let mut b = probe_nes();
    b.load_state(&saved).unwrap();
    assert_eq!(a.state_hash(), b.state_hash());
    for frame in 0..20 {
        a.run_frame(FrameInput::from([Buttons::empty(); 2]));
        b.run_frame(FrameInput::from([Buttons::empty(); 2]));
        assert_eq!(a.state_hash(), b.state_hash(), "重播第 {frame} 幀");
    }
}

#[test]
fn apu_registers_are_part_of_the_state_hash() {
    let mut a = probe_nes();
    let mut b = probe_nes();
    for _ in 0..5 {
        a.run_frame(FrameInput::from([Buttons::empty(); 2]));
        b.run_frame(FrameInput::from([Buttons::empty(); 2]));
    }
    assert_eq!(a.state_hash(), b.state_hash());
    b.cpu.bus_mut().apu.pulse[1].envelope.volume ^= 1;
    assert_ne!(a.state_hash(), b.state_hash());
}

#[test]
fn tampered_apu_state_is_rejected_by_load_state() {
    let tampers: [(&str, Tamper); 7] = [
        ("pulse.seq", |a| a.pulse[0].seq = 9),
        ("triangle.seq", |a| a.triangle.seq = 40),
        ("noise.period_index", |a| a.noise.period_index = 16),
        ("dmc.bits_remaining", |a| a.dmc.bits_remaining = 0),
        ("frame.step", |a| a.frame.step = 6),
        ("frame.cycle", |a| a.frame.cycle = 60_000),
        ("pulse.timer_period", |a| a.pulse[1].timer_period = 0x800),
    ];
    for (name, tamper) in tampers {
        let mut source = probe_nes();
        tamper(&mut source.cpu.bus_mut().apu);
        let bytes = source.save_state();
        let mut target = probe_nes();
        assert!(
            matches!(target.load_state(&bytes), Err(StateError::Corrupt)),
            "{name} 被竄改的存檔必須被拒絕"
        );
    }
}

// ---- 事件驅動與批次前進必須與「逐 cycle」完全等價 ------------------------------------

/// 最簡單、顯然正確的模型是「一個 cycle 一個 cycle 走」。`Apu::step` 為了效率把區間切成事件
/// 之間的 chunk、並對聽不到的聲道用算術批次前進；這個測試用固定種子的偽隨機暫存器寫入與隨機
/// 長度的區間，比對兩者的完整狀態（含 DMC 暫停累積量）：輸出開啟與關閉都要相同。
#[test]
fn chunked_stepping_is_equivalent_to_stepping_one_cycle_at_a_time() {
    let cart = cartridge_of(&apu_probe_rom(ApuProbe::DEFAULT));
    let regs: [u16; 24] = [
        0x4000, 0x4001, 0x4002, 0x4003, 0x4004, 0x4005, 0x4006, 0x4007, 0x4008, 0x400A, 0x400B,
        0x400C, 0x400E, 0x400F, 0x4010, 0x4011, 0x4012, 0x4013, 0x4015, 0x4015, 0x4015, 0x4017,
        0x4003, 0x400B,
    ];
    for output in [true, false] {
        for seed in 1..=12u64 {
            let mut rng = seed.wrapping_mul(0x9E37_79B9_7F4A_7C15) | 1;
            let mut chunked = Apu::new();
            let mut single = Apu::new();
            chunked.set_output_enabled(output);
            single.set_output_enabled(output);
            for round in 0..400 {
                let r = next_random(&mut rng);
                let reg = regs[(r % regs.len() as u64) as usize];
                let value = (r >> 8) as u8;
                for apu in [&mut chunked, &mut single] {
                    apu.sync(&cart);
                    if reg == 0x4015 && value & 0x40 != 0 {
                        let _ = apu.read_status();
                    }
                    apu.write_register(reg, value);
                }
                // 區間長度：多半很短，偶爾很長（跨過 frame counter 的好幾個步驟）。
                let cycles = match (r >> 20) % 8 {
                    0 => 1 + (r >> 24) % 5_000,
                    _ => 1 + (r >> 24) % 60,
                } as u32;
                chunked.step(cycles, &cart);
                for _ in 0..cycles {
                    single.step(1, &cart);
                }
                assert_eq!(
                    saved(&chunked),
                    saved(&single),
                    "output={output} seed={seed} 第 {round} 輪（寫 {reg:#06X} = {value:#04X}，{cycles} cycle）"
                );
            }
        }
    }
}

// ---- DMC 啟用延遲的奇偶差異 ------------------------------------------------------------

/// 寫 `$4015` 啟用 DMC 之後，第一次抓取樣本要等 2 個 cycle（寫入落在偶數 CPU cycle）或 3 個
/// （奇數）。在 `parity_odd` 指定的奇偶下寫入，回傳（寫入後 `start_delay`、要 `tick(1)` 幾次
/// 才看到緩衝區被填入）。
fn dmc_start_after_enable(parity_odd: bool) -> (u8, u32) {
    let mut bus = dmc_bus();
    bus.write(0x4010, 0x0F); // 最慢的速率、無 IRQ
    bus.write(0x4012, 0x00);
    bus.write(0x4013, 0x01); // 17 bytes：抓完第一個 byte 之後還有剩
    bus.tick(1); // 先讓前面的寫入「存取前先跑的 cycle」被消化掉（`ahead` 歸零）
    // 寫入時 APU 的 cycle 計數（`write_register` 看到的，已含存取前先跑的那個 cycle）的奇偶。
    while ((bus.apu.cycles + 1) & 1 == 1) != parity_odd {
        bus.tick(1);
    }
    bus.write(0x4015, 0x10);
    let delay = bus.apu.dmc.start_delay;
    assert!(bus.apu.dmc.buffer_empty);
    let mut ticks = 0;
    while bus.apu.dmc.buffer_empty {
        bus.tick(1);
        ticks += 1;
        assert!(ticks < 20, "DMC 沒有抓取樣本");
    }
    (delay, ticks)
}

#[test]
fn dmc_start_delay_is_two_cycles_on_even_writes_and_three_on_odd_writes() {
    let (even_delay, even_ticks) = dmc_start_after_enable(false);
    let (odd_delay, odd_ticks) = dmc_start_after_enable(true);
    assert_eq!((even_delay, odd_delay), (2, 3), "啟用延遲");
    assert_eq!((even_ticks, odd_ticks), (3, 4), "抓取發生的時間點");
    assert_eq!(odd_ticks, even_ticks + 1, "奇數寫入晚 1 個 cycle");
}

// ---- output ----------------------------------------------------------------

#[test]
fn output_has_the_expected_sample_count_and_can_be_switched_off() {
    let mut bus = idle_bus();
    bus.apu.set_sample_rate(hz(44_100.0));
    run(&mut bus, ONE_SECOND);
    let mut samples = Vec::new();
    bus.apu.take_samples(&mut samples);
    assert!(
        (samples_in(&samples) as i64 - 44_100).abs() <= 2,
        "{} 個取樣",
        samples_in(&samples)
    );

    bus.apu.set_output_enabled(false);
    run(&mut bus, ONE_SECOND / 4);
    bus.apu.take_samples(&mut samples);
    assert_eq!(bus.apu.buffered_samples(), 0);
    let after_off = samples.len();
    bus.apu.take_samples(&mut samples);
    assert_eq!(samples.len(), after_off, "關閉輸出之後不再產生取樣");
    assert!((samples_in(&samples) as i64 - 44_100).abs() <= 2);

    bus.apu.set_output_enabled(true);
    bus.write(0x4015, 0x0F);
    bus.write(0x400C, 0x3F);
    bus.write(0x400E, 0x00);
    bus.write(0x400F, 0x08);
    run(&mut bus, ONE_SECOND);
    let noisy = bus.apu.buffered_samples() as i64;
    assert!((noisy - 44_100).abs() <= 2, "with as many changes as there are: {noisy}");
}

/// 音高：pulse 週期暫存器 t → 頻率 = 1789773 / (16 × (t + 1))。t = 253 ≈ 440.4 Hz。
#[test]
fn pulse_pitch_matches_the_period_register() {
    for (period, rate) in [
        (253u16, 44_100.0),
        (253, 48_000.0),
        (126, 48_000.0),
        (500, 44_100.0),
    ] {
        let mut bus = idle_bus();
        bus.apu.set_sample_rate(hz(rate));
        bus.write(0x4015, 0x01);
        bus.write(0x4000, 0xBF); // duty 2（50%）、halt、固定音量 15
        bus.write(0x4002, period as u8);
        bus.write(0x4003, (period >> 8) as u8);
        run(&mut bus, ONE_SECOND / 10);
        let mut discard = Vec::new();
        bus.apu.take_samples(&mut discard);
        run(&mut bus, ONE_SECOND);
        let mut segments = Vec::new();
        bus.apu.take_samples(&mut segments);
        let samples: Vec<f64> = pulse_means(&segments).iter().map(|m| m - 7.5).collect();

        let rising = samples
            .windows(2)
            .filter(|w| w[0] < 0.0 && w[1] >= 0.0)
            .count();
        let expected = cpu_clock_hz() / (16.0 * (f64::from(period) + 1.0));
        assert!(
            (rising as f64 - expected).abs() <= 2.0,
            "週期 {period} @ {rate} Hz：預期 {expected:.1} Hz，量到 {rising}"
        );
        let peak = samples.iter().fold(0.0f64, |m, s| m.max(s.abs()));
        assert!((7.49..7.51).contains(&peak), "振幅 {peak}");
    }
}

#[test]
fn changing_the_sample_rate_changes_only_the_output() {
    let mut a = idle_bus();
    let mut b = idle_bus();
    for bus in [&mut a, &mut b] {
        bus.write(0x4015, 0x0F);
        bus.write(0x4000, 0xBF);
        bus.write(0x4002, 0x40);
        bus.write(0x4003, 0x08);
    }
    b.apu.set_sample_rate(hz(48_000.0 * 1.005));
    run(&mut a, 200_000);
    run(&mut b, 200_000);
    let sa = samples_in(&sound_of(&mut a));
    let sb = samples_in(&sound_of(&mut b));
    assert!(sb > sa, "取樣率高 0.5% → 取樣數多");
    assert_eq!((sa, sb), (5363, 5390));
    assert_eq!(saved(&a.apu), saved(&b.apu), "取樣率不影響模擬狀態");
}

#[test]
fn channel_mask_silences_a_channel_without_touching_state() {
    let mut a = idle_bus();
    let mut b = idle_bus();
    b.apu.set_channel_mask(ALL_CHANNELS & !CHANNEL_PULSE1);
    for bus in [&mut a, &mut b] {
        bus.write(0x4015, 0x01);
        bus.write(0x4000, 0xBF);
        bus.write(0x4002, 0x40);
        bus.write(0x4003, 0x08);
        run(bus, 100_000);
    }
    assert_eq!(saved(&a.apu), saved(&b.apu));
    assert!(sound_of(&mut a).iter().any(|s| s.pulse == 15));
    assert!(sound_of(&mut b).iter().all(|s| s.pulse == 0));
}

#[test]
fn mixer_positions_add_up_the_channels_that_are_heard() {
    let mut out = AudioOut::default();
    assert_eq!(out.mix(0, 0, 0, 0, 0), (0, 0));
    assert_eq!(out.mix(15, 15, 0, 0, 0), (30, 0));
    assert_eq!(out.mix(0, 0, 15, 15, 127), (0, 202));
    out.set_channel_mask(ALL_CHANNELS & !CHANNEL_PULSE1);
    assert_eq!(out.mix(15, 0, 0, 0, 0), (0, 0));
    assert_eq!(out.mix(15, 4, 1, 2, 3), (4, 10));
}

#[test]
fn channel_mask_silences_individual_channels() {
    let mut out = AudioOut::default();
    let full = out.mix(15, 15, 15, 15, 127);
    out.set_channel_mask(ALL_CHANNELS & !CHANNEL_PULSE1);
    assert_eq!(out.mix(15, 0, 0, 0, 0), (0, 0));
    let masked = out.mix(15, 15, 15, 15, 127);
    assert!(masked.0 < full.0 && masked.1 == full.1);
}

#[test]
fn integrate_produces_the_expected_number_of_samples() {
    let mut out = AudioOut::default();
    // 1 秒的 CPU cycle → 約 48000 個取樣。
    let mut left = cpu_clock_hz() as u64;
    while left > 0 {
        let step = left.min(29_780) as u32;
        out.integrate((10, 20), step);
        left -= step as u64;
    }
    let n = out.buffered() as i64;
    assert!((n - 48_000).abs() <= 1, "取樣數 {n}");
    let mut taken = Vec::new();
    out.take_samples(&mut taken);
    assert_eq!(taken.len() as i64, n, "equal levels are joined within a sample");
    assert!(taken.iter().all(|s| (s.pulse, s.tnd) == (10, 20) && s.ticks == s.period));
}

#[test]
fn the_sample_rate_is_clamped() {
    let mut out = AudioOut::default();
    out.set_sample_rate(hz(1.0));
    assert_eq!(out.sample_rate(), MIN_SAMPLE_RATE);
    out.set_sample_rate(hz(1e9));
    assert_eq!(out.sample_rate(), MAX_SAMPLE_RATE);
    out.set_sample_rate(u64::MAX);
    assert_eq!(out.sample_rate(), MAX_SAMPLE_RATE);
    out.set_sample_rate(0);
    assert_eq!(out.sample_rate(), MIN_SAMPLE_RATE);
    assert_eq!(AudioOut::default().sample_rate(), DEFAULT_SAMPLE_RATE);
}

#[test]
fn buffer_is_bounded_when_nobody_drains_it() {
    let mut out = AudioOut::default();
    for _ in 0..1000 {
        out.integrate((3, 30), 29_780);
    }
    assert_eq!(out.buffered(), MAX_BUFFERED_SAMPLES);
}

#[test]
fn as_many_samples_wait_at_every_rate_and_the_oldest_give_way() {
    for rate in [8_000.0, 44_100.0, 48_000.0, 192_000.0] {
        let mut out = AudioOut::default();
        out.set_sample_rate(hz(rate));
        let cycles_per_sample = cpu_clock_hz() / rate;
        let mut cycles = 0u64;
        let mut level = 0u8;
        while cycles < (140_000.0 * cycles_per_sample) as u64 {
            out.integrate((7, level), 29_781);
            level = (level + 1) % 200;
            cycles += 29_781;
            let ended = (cycles as f64 / cycles_per_sample) as i64;
            let expected = ended.min(131_072);
            assert!((out.buffered() as i64 - expected).abs() <= 1, "{rate}: {expected}");
        }
        assert_eq!(out.buffered(), MAX_BUFFERED_SAMPLES);
        let mut taken = Vec::new();
        out.take_samples(&mut taken);
        assert_eq!(samples_in(&taken), 131_072);
        assert!(taken.last().unwrap().period > 0, "the sample on its way stays");
        assert_eq!(out.buffered(), 0);
        let last = level.checked_sub(1).unwrap_or(199);
        assert_eq!(taken.last().unwrap().tnd, last, "the newest are kept");
        let lasting: u128 = taken.iter().map(|s| u128::from(s.ticks)).sum();
        let one = u128::from(taken.last().unwrap().period);
        assert_eq!(lasting, 131_072 * one, "whole samples are dropped");
    }
}

#[test]
fn a_sample_on_its_way_goes_on_after_taking_and_after_a_new_rate() {
    let mut out = AudioOut::default();
    // A sample at 48 kHz lasts 37.28 cycles.
    out.integrate((1, 0), 20);
    assert_eq!(out.buffered(), 0);
    let mut taken = Vec::new();
    out.take_samples(&mut taken);
    assert!(taken.is_empty());
    out.integrate((2, 0), 20);
    assert_eq!(out.buffered(), 1);
    out.take_samples(&mut taken);
    assert_eq!(taken.len(), 2);
    assert_eq!((taken[0].pulse, taken[0].ticks, taken[0].period), (1, 20 * TICKS_PER_CYCLE, 0));
    assert_eq!(taken[0].ticks + taken[1].ticks, taken[1].period);
    let period = taken[1].period as f64 / TICKS_PER_CYCLE as f64;
    assert!((period - cpu_clock_hz() / 48_000.0).abs() < 1e-9);

    // At 192 kHz one lasts 9.32 cycles, so what is on its way ends by then.
    out.set_sample_rate(MAX_SAMPLE_RATE);
    out.integrate((3, 0), 10);
    assert_eq!(out.buffered(), 1);
    // A lower rate leaves what is left of it as it is.
    out.set_sample_rate(MIN_SAMPLE_RATE);
    out.integrate((3, 0), 9);
    assert_eq!(out.buffered(), 2);
    out.integrate((3, 0), 223);
    assert_eq!(out.buffered(), 2);
    out.integrate((3, 0), 1);
    assert_eq!(out.buffered(), 3);
    out.reset_signal();
    assert_eq!(out.buffered(), 0);
    out.integrate((3, 0), 223);
    assert_eq!(out.buffered(), 0);
    out.integrate((3, 0), 1);
    assert_eq!(out.buffered(), 1);
}

//! What holds of the machine, on examples.

use nes_core::dual::{fingerprint_trace, first_divergence, run_both, DualRunner};
use nes_core::fingerprint::Fp;
use nes_core::frame::FrameBuffer;
use nes_core::state::decode;
use nes_core::state::wire::{Reader, Writer};
use nes_core::{
    Buttons, DecodeError, FrameInput, Mapper, Mirroring, Nes, RomError, RomId, StateError,
};

/// A small assembler for test programs.
#[allow(dead_code)]
struct Asm {
    origin: u16,
    bytes: Vec<u8>,
}

#[allow(dead_code)]
impl Asm {
    fn new(origin: u16) -> Asm {
        Asm { origin, bytes: Vec::new() }
    }

    fn pc(&self) -> u16 {
        self.origin + self.bytes.len() as u16
    }

    fn op(&mut self, bytes: &[u8]) -> &mut Asm {
        self.bytes.extend_from_slice(bytes);
        self
    }

    fn op_abs(&mut self, opcode: u8, addr: u16) -> &mut Asm {
        self.op(&[opcode, addr as u8, (addr >> 8) as u8])
    }

    fn branch(&mut self, opcode: u8, target: u16) -> &mut Asm {
        let next = self.pc().wrapping_add(2);
        self.op(&[opcode, target.wrapping_sub(next) as u8])
    }

    fn jmp(&mut self, addr: u16) -> &mut Asm {
        self.op_abs(0x4C, addr)
    }

    fn lda_imm(&mut self, v: u8) -> &mut Asm {
        self.op(&[0xA9, v])
    }

    fn ldx_imm(&mut self, v: u8) -> &mut Asm {
        self.op(&[0xA2, v])
    }

    fn and_imm(&mut self, v: u8) -> &mut Asm {
        self.op(&[0x29, v])
    }

    fn cmp_imm(&mut self, v: u8) -> &mut Asm {
        self.op(&[0xC9, v])
    }

    fn cpx_imm(&mut self, v: u8) -> &mut Asm {
        self.op(&[0xE0, v])
    }

    fn lda_abs(&mut self, addr: u16) -> &mut Asm {
        self.op_abs(0xAD, addr)
    }

    fn lda_abs_x(&mut self, addr: u16) -> &mut Asm {
        self.op_abs(0xBD, addr)
    }

    fn sta_abs(&mut self, addr: u16) -> &mut Asm {
        self.op_abs(0x8D, addr)
    }

    fn sta_abs_x(&mut self, addr: u16) -> &mut Asm {
        self.op_abs(0x9D, addr)
    }

    fn adc_abs(&mut self, addr: u16) -> &mut Asm {
        self.op_abs(0x6D, addr)
    }

    fn inc_abs(&mut self, addr: u16) -> &mut Asm {
        self.op_abs(0xEE, addr)
    }

    fn rol_abs(&mut self, addr: u16) -> &mut Asm {
        self.op_abs(0x2E, addr)
    }

    fn bit_abs(&mut self, addr: u16) -> &mut Asm {
        self.op_abs(0x2C, addr)
    }

    fn bne(&mut self, target: u16) -> &mut Asm {
        self.branch(0xD0, target)
    }

    fn beq(&mut self, target: u16) -> &mut Asm {
        self.branch(0xF0, target)
    }

    fn bpl(&mut self, target: u16) -> &mut Asm {
        self.branch(0x10, target)
    }

    fn bvs(&mut self, target: u16) -> &mut Asm {
        self.branch(0x70, target)
    }

    fn bvc(&mut self, target: u16) -> &mut Asm {
        self.branch(0x50, target)
    }

    fn inx(&mut self) -> &mut Asm {
        self.op(&[0xE8])
    }

    fn txa(&mut self) -> &mut Asm {
        self.op(&[0x8A])
    }

    fn txs(&mut self) -> &mut Asm {
        self.op(&[0x9A])
    }

    fn pha(&mut self) -> &mut Asm {
        self.op(&[0x48])
    }

    fn pla(&mut self) -> &mut Asm {
        self.op(&[0x68])
    }

    fn lsr(&mut self) -> &mut Asm {
        self.op(&[0x4A])
    }

    fn clc(&mut self) -> &mut Asm {
        self.op(&[0x18])
    }

    fn cli(&mut self) -> &mut Asm {
        self.op(&[0x58])
    }

    fn sei(&mut self) -> &mut Asm {
        self.op(&[0x78])
    }

    fn cld(&mut self) -> &mut Asm {
        self.op(&[0xD8])
    }

    fn rti(&mut self) -> &mut Asm {
        self.op(&[0x40])
    }

    fn set_ppu_addr(&mut self, addr: u16) -> &mut Asm {
        self.lda_imm((addr >> 8) as u8)
            .sta_abs(0x2006)
            .lda_imm(addr as u8)
            .sta_abs(0x2006)
    }
}

/// A ROM with 32 KB of program at `$8000` and 8 KB of patterns.
#[allow(dead_code)]
fn build_nrom_irq(
    code: &Asm,
    reset: u16,
    nmi: Option<u16>,
    irq: Option<u16>,
    extra: &[(u16, &[u8])],
    chr: &[u8],
    vertical: bool,
) -> Vec<u8> {
    let mut rom = vec![0u8; 16];
    rom[0..4].copy_from_slice(b"NES\x1A");
    rom[4] = 2;
    rom[5] = 1;
    rom[6] = vertical as u8;
    let mut prg = vec![0u8; 0x8000];
    let start = (code.origin - 0x8000) as usize;
    prg[start..start + code.bytes.len()].copy_from_slice(&code.bytes);
    for (addr, bytes) in extra {
        let at = (*addr - 0x8000) as usize;
        prg[at..at + bytes.len()].copy_from_slice(bytes);
    }
    for (at, vector) in [
        (0x7FFA, nmi.unwrap_or(reset)),
        (0x7FFC, reset),
        (0x7FFE, irq.unwrap_or(reset)),
    ] {
        prg[at] = vector as u8;
        prg[at + 1] = (vector >> 8) as u8;
    }
    rom.extend_from_slice(&prg);
    let mut patterns = vec![0u8; 0x2000];
    patterns[..chr.len()].copy_from_slice(chr);
    rom.extend_from_slice(&patterns);
    rom
}

#[allow(dead_code)]
fn build_nrom(
    code: &Asm,
    reset: u16,
    nmi: Option<u16>,
    extra: &[(u16, &[u8])],
    chr: &[u8],
    vertical: bool,
) -> Vec<u8> {
    build_nrom_irq(code, reset, nmi, None, extra, chr, vertical)
}

/// Patterns: tile 0 is empty, tiles 1 to 3 are solid in their colour, tile 4 is striped, tile 5 has
/// its left half in colour 3 above and is solid below, tile 6 is solid above and empty below, and
/// tile 7 is empty.
#[allow(dead_code)]
fn test_chr() -> Vec<u8> {
    let mut chr = vec![0u8; 0x2000];
    for row in 0..8usize {
        chr[16 + row] = 0xFF;
        chr[2 * 16 + 8 + row] = 0xFF;
        chr[3 * 16 + row] = 0xFF;
        chr[3 * 16 + 8 + row] = 0xFF;
        chr[4 * 16 + row] = 0xAA;
        let left = if row < 4 { 0xF0 } else { 0xFF };
        chr[5 * 16 + row] = left;
        chr[5 * 16 + 8 + row] = left;
        let upper = if row < 4 { 0xFF } else { 0x00 };
        chr[6 * 16 + row] = upper;
        chr[6 * 16 + 8 + row] = upper;
    }
    chr
}

/// A picture with background, sprites and scrolling. The NMI handler counts in `$00`.
#[allow(dead_code)]
fn rendering_rom() -> Vec<u8> {
    let mut a = Asm::new(0x8000);
    a.sei().cld().ldx_imm(0xFF).txs();
    a.set_ppu_addr(0x3F00);
    for color in [
        0x0F, 0x16, 0x2A, 0x30, 0x0F, 0x11, 0x21, 0x31, 0x0F, 0x15, 0x25, 0x35, 0x0F, 0x19, 0x29,
        0x39, 0x0F, 0x06, 0x1A, 0x30, 0x0F, 0x12, 0x22, 0x32,
    ] {
        a.lda_imm(color).sta_abs(0x2007);
    }
    a.set_ppu_addr(0x2000).ldx_imm(0);
    for _ in 0..4 {
        let l = a.pc();
        a.txa().and_imm(0x07).sta_abs(0x2007).inx().bne(l);
    }
    a.ldx_imm(0);
    let l = a.pc();
    a.txa().and_imm(0x7F).sta_abs_x(0x0200).inx().bne(l);
    a.lda_imm(0).sta_abs(0x2003).lda_imm(0x02).sta_abs(0x4014);
    a.lda_imm(0).sta_abs(0x2005).sta_abs(0x2005);
    a.lda_imm(0x80).sta_abs(0x2000).lda_imm(0x1E).sta_abs(0x2001);
    let forever = a.pc();
    a.inc_abs(0x0001).jmp(forever);
    let mut nmi = Asm::new(0x9000);
    nmi.pha()
        .inc_abs(0x0000)
        .lda_abs(0x0000)
        .sta_abs(0x2005)
        .lda_imm(0)
        .sta_abs(0x2005)
        .pla()
        .rti();
    build_nrom(&a, 0x8000, Some(0x9000), &[(0x9000, &nmi.bytes)], &test_chr(), false)
}

/// Every frame reads both controllers and adds up what it read, from `$20` on. `$10` counts the
/// times the program began, `$11` the frames.
#[allow(dead_code)]
fn input_probe_rom() -> Vec<u8> {
    let mut a = Asm::new(0x8000);
    a.sei().cld().ldx_imm(0xFF).txs().inc_abs(0x0010);
    a.lda_imm(0x80).sta_abs(0x2000);
    let forever = a.pc();
    a.jmp(forever);
    let mut nmi = Asm::new(0x9000);
    nmi.inc_abs(0x0011).lda_imm(1).sta_abs(0x4016).lda_imm(0).sta_abs(0x4016);
    for (port, sum) in [(0x4016u16, 0x0020u16), (0x4017, 0x0021)] {
        nmi.ldx_imm(0);
        let l = nmi.pc();
        nmi.lda_abs(port).lsr().rol_abs(0x0012).inx().cpx_imm(8).bne(l);
        nmi.lda_abs(0x0012).clc().adc_abs(sum).sta_abs(sum);
        nmi.adc_abs(sum + 2).sta_abs(sum + 2);
    }
    nmi.rti();
    build_nrom(&a, 0x8000, Some(0x9000), &[(0x9000, &nmi.bytes)], &test_chr(), false)
}

fn inputs(n: u8) -> Vec<FrameInput> {
    (0..n)
        .map(|i| FrameInput::new(Buttons::from_bits_truncate(i), Buttons::from_bits_truncate(i / 3)))
        .collect()
}

fn ran(rom: &[u8], inputs: &[FrameInput]) -> Nes {
    let mut nes = Nes::from_rom(rom).unwrap();
    for input in inputs {
        nes.run_frame(*input);
    }
    nes
}

// ---- hashes and the wire format, against their crates ---------------------------------

#[test]
fn hashes_are_those_of_xxh3() {
    let data: Vec<u8> = (0..1000u32).map(|i| (i * 7) as u8).collect();
    let mut fp = Fp::new();
    fp.bytes(&data);
    fp.u16(0x1234);
    let mut hashed = 1000u32.to_le_bytes().to_vec();
    hashed.extend_from_slice(&data);
    hashed.extend_from_slice(&[0x34, 0x12]);
    assert_eq!(fp.finish(), xxhash_rust::xxh3::xxh3_64(&hashed));
    let picture = FrameBuffer::blank();
    assert_eq!(picture.hash64(), xxhash_rust::xxh3::xxh3_64(picture.as_bytes()));
    assert_eq!(RomId::of_file(&data).hash, xxhash_rust::xxh3::xxh3_128(&data));
    assert_eq!(RomId::of_file(&data).text(), format!("{:032x}", xxhash_rust::xxh3::xxh3_128(&data)));
}

#[test]
fn numbers_are_written_and_read_as_postcard_does() {
    for v in [0u64, 1, 127, 128, 255, 300, 0x7FFF, 0xFFFF, 0x1_0000, u32::MAX as u64, u64::MAX] {
        let mut w = Writer::new();
        w.quad(v);
        w.long(v as u32);
        w.word(v as u16);
        w.byte(v as u8);
        w.flag(v % 2 == 1);
        let expected = postcard::to_allocvec(&(v, v as u32, v as u16, v as u8, v % 2 == 1)).unwrap();
        assert_eq!(w.bytes, expected);
        let mut r = Reader::new(&w.bytes);
        assert_eq!(r.quad(), v);
        assert_eq!(r.long(), v as u32);
        assert_eq!(r.word(), v as u16);
        assert_eq!(r.byte(), v as u8);
        assert_eq!(r.flag(), v % 2 == 1);
        assert!(!r.failed() && r.rest.is_empty());
    }
}

/// What postcard finds wrong.
fn fault_of<T>(result: Result<T, postcard::Error>) -> Option<DecodeError> {
    match result {
        Ok(_) => None,
        Err(postcard::Error::DeserializeUnexpectedEnd) => Some(DecodeError::UnexpectedEnd),
        Err(postcard::Error::DeserializeBadVarint) => Some(DecodeError::BadNumber),
        Err(other) => panic!("{other:?}"),
    }
}

#[test]
fn bad_numbers_are_refused_as_postcard_refuses_them() {
    for bytes in [
        vec![],
        vec![0x80],
        vec![0xFF, 0xFF, 0x04],
        vec![0x80, 0x80, 0x80, 0x00],
        vec![0xFF, 0xFF, 0xFF, 0xFF, 0x10],
        vec![0xFF; 10],
        vec![0x80; 11],
    ] {
        let mut r = Reader::new(&bytes);
        r.word();
        assert_eq!(r.fault, fault_of(postcard::take_from_bytes::<u16>(&bytes)), "{bytes:?}");
        let mut r = Reader::new(&bytes);
        r.long();
        assert_eq!(r.fault, fault_of(postcard::take_from_bytes::<u32>(&bytes)), "{bytes:?}");
        let mut r = Reader::new(&bytes);
        r.quad();
        assert_eq!(r.fault, fault_of(postcard::take_from_bytes::<u64>(&bytes)), "{bytes:?}");
    }
    let mut r = Reader::new(&[2]);
    assert!(!r.flag());
    assert!(r.failed());
    assert_eq!(r.byte(), 0);
}

#[test]
fn memory_is_its_length_and_its_bytes() {
    let data: Vec<u8> = (0..200u8).collect();
    let mut w = Writer::new();
    w.block(&data);
    assert_eq!(w.bytes, postcard::to_allocvec(&data).unwrap());
    let mut r = Reader::new(&w.bytes);
    assert_eq!(r.block(), data);
    let mut short = Reader::new(&w.bytes[..100]);
    assert!(short.block().is_empty());
    assert!(short.failed());
}

// ---- laws, on concrete machines ---------------------------------------------------------

#[test]
fn output_never_matters() {
    let rom = rendering_rom();
    let script = inputs(20);
    let loud = ran(&rom, &script);
    let mut quiet = Nes::from_rom(&rom).unwrap();
    quiet.set_output_enabled(false);
    quiet.set_audio_channel_mask(0x03);
    for input in &script {
        quiet.run_frame(*input);
    }
    assert_eq!(quiet.behavior_fingerprint(), loud.behavior_fingerprint());
    assert_eq!(quiet.save_state(), loud.save_state());
    assert_ne!(quiet.frame_buffer().as_bytes(), loud.frame_buffer().as_bytes());
}

#[test]
fn a_saved_machine_comes_back_and_runs_the_same() {
    let rom = input_probe_rom();
    let script = inputs(30);
    let saved = ran(&rom, &script[..12]);
    let mut other = ran(&rom, &inputs(25));
    other.load_state(&saved.save_state()).unwrap();
    assert_eq!(other.behavior_fingerprint(), saved.behavior_fingerprint());
    for input in &script[12..] {
        other.run_frame(*input);
    }
    assert_eq!(other.behavior_fingerprint(), ran(&rom, &script).behavior_fingerprint());
    assert_eq!(other.save_state(), ran(&rom, &script).save_state());
}

#[test]
fn every_frame_completes_and_is_counted() {
    let mut nes = Nes::from_rom(&input_probe_rom()).unwrap();
    for n in 1..=10u64 {
        nes.run_frame(FrameInput::none().with_reset());
        assert_eq!(nes.frame_count(), n);
    }
    // A processor that stopped still lets frames pass.
    let mut rom = vec![0u8; 16];
    rom[0..4].copy_from_slice(b"NES\x1A");
    rom[4] = 1;
    rom.extend(vec![0x02u8; 0x4000]);
    rom[16 + 0x3FFC..16 + 0x3FFE].copy_from_slice(&[0x00, 0x80]);
    let mut jammed = Nes::from_rom(&rom).unwrap();
    jammed.run_frame(FrameInput::none());
    assert!(jammed.debug_snapshot().cpu_jammed);
    assert_eq!(jammed.frame_count(), 1);
}

#[test]
fn peeks_show_what_reads_give_and_memory_repeats() {
    let mut nes = ran(&rendering_rom(), &inputs(4));
    for addr in [0x0000u16, 0x0123, 0x0801, 0x1FFF, 0x8000, 0xC123, 0xFFFC] {
        let seen = nes.peek(addr);
        assert_eq!(nes.cpu.bus_mut().read(addr), seen);
    }
    nes.cpu.bus_mut().write(0x0042, 0x99);
    for addr in [0x0042u16, 0x0842, 0x1042, 0x1842] {
        assert_eq!(nes.peek(addr), 0x99);
    }
}

#[test]
fn a_reset_keeps_memory() {
    let mut nes = ran(&input_probe_rom(), &inputs(10));
    let before: Vec<u8> = (0..0x800u16).map(|a| nes.peek(a)).collect();
    nes.reset();
    let after: Vec<u8> = (0..0x800u16).map(|a| nes.peek(a)).collect();
    assert_eq!(before, after);
}

#[test]
fn rom_errors_say_what_is_wrong() {
    assert_eq!(
        RomError::Truncated { expected: 40976, actual: 100 }.message(),
        "ROM 資料長度不足：header 宣告需要 40976 bytes，實際只有 100 bytes"
    );
    assert_eq!(RomError::UnsupportedMapper(4).message(), "mapper 4 尚未實作");
    assert_eq!(StateError::Corrupt.message(), "存檔資料已損毀：內部欄位長度與預期不符");
    assert_eq!(
        StateError::RomMismatch { expected: RomId { hash: 1 << 64 }, found: RomId { hash: 0xAB << 120 } }
            .message(),
        "存檔屬於不同的 ROM（目前 ROM 雜湊 0x0000000000000001，存檔雜湊 0xab00000000000000）"
    );
}

// ---- two machines ------------------------------------------------------------------------

#[test]
fn equal_inputs_never_diverge_and_a_difference_is_found() {
    let rom = input_probe_rom();
    let script = inputs(20);
    assert_eq!(run_both(&rom, &script).unwrap(), None);

    let mut runner = DualRunner::new(&rom).unwrap();
    let other = FrameInput::new(Buttons::select(), Buttons::empty());
    for (i, input) in script.iter().enumerate() {
        runner.step(*input, if i == 6 { other } else { *input });
    }
    let found = runner.first_divergence().unwrap();
    assert_eq!(found.frame, 7);
    assert_ne!(found.a, found.b);

    let mut a = Nes::from_rom(&rom).unwrap();
    let mut b = Nes::from_rom(&rom).unwrap();
    let mut changed = script.clone();
    changed[6] = other;
    let left = fingerprint_trace(&mut a, &script);
    let right = fingerprint_trace(&mut b, &changed);
    assert_eq!(first_divergence(&left, &right), Some(found));
    assert_eq!(first_divergence(&left, &left), None);
}

#[test]
fn output_of_either_machine_is_switched_and_never_tells_them_apart() {
    let rom = rendering_rom();
    let mut runner = DualRunner::new(&rom).unwrap();
    runner.set_output(true, false);
    assert!(runner.a().output_enabled());
    assert!(!runner.b().output_enabled());
    for input in inputs(8) {
        runner.step(input, input);
    }
    assert_eq!(runner.first_divergence(), None);
}

#[test]
fn a_machine_changed_in_between_is_found_out() {
    let rom = input_probe_rom();
    for change_a in [true, false] {
        let mut runner = DualRunner::new(&rom).unwrap();
        runner.step(FrameInput::none(), FrameInput::none());
        let changed = if change_a { runner.a_mut() } else { runner.b_mut() };
        changed.reset();
        runner.step(FrameInput::none(), FrameInput::none());
        assert_eq!(runner.first_divergence().unwrap().frame, 2);
    }
}

#[test]
fn the_program_counter_can_be_set() {
    let mut nes = Nes::from_rom(&rendering_rom()).unwrap();
    nes.override_pc(0x8123);
    assert_eq!(nes.debug_snapshot().cpu_pc, 0x8123);
    assert!(nes.trace().starts_with("8123"));
}

#[test]
fn a_bad_save_state_says_what_is_wrong() {
    let rom = rendering_rom();
    let mut nes = ran(&rom, &inputs(3));
    let good = nes.save_state();
    let cause = |nes: &mut Nes, bytes: &[u8]| match nes.load_state(bytes) {
        Err(StateError::Decode(cause)) => cause,
        other => panic!("{other:?}"),
    };
    assert_eq!(cause(&mut nes, &good[..5]), DecodeError::UnexpectedEnd);
    assert_eq!(cause(&mut nes, &good[..good.len() - 1]), DecodeError::UnexpectedEnd);
    assert_eq!(nes.save_state(), good, "what is refused changes nothing");
    let mut causes = Vec::new();
    for at in 8..good.len() {
        let mut bad = good.clone();
        bad[at] = 0xFF;
        if let Err(StateError::Decode(cause)) = decode(&bad) {
            if !causes.contains(&cause) {
                causes.push(cause);
            }
        }
    }
    for cause in [
        DecodeError::UnexpectedEnd,
        DecodeError::BadNumber,
        DecodeError::BadFlag,
        DecodeError::BadOption,
    ] {
        assert!(causes.contains(&cause), "{cause:?} is not in {causes:?}");
    }
    assert_eq!(
        StateError::Decode(DecodeError::UnexpectedEnd).message(),
        "存檔資料解碼失敗: Hit the end of buffer, expected more data"
    );
}

#[test]
fn the_first_thing_that_is_wrong_is_told() {
    let mut r = Reader::new(&[2]);
    r.flag();
    r.byte();
    assert_eq!(r.fault, Some(DecodeError::BadFlag));
    let mut r = Reader::new(&[2]);
    r.presence();
    assert_eq!(r.fault, Some(DecodeError::BadOption));
    let mut r = Reader::new(&[0x80, 0x80]);
    r.word();
    assert_eq!(r.fault, Some(DecodeError::UnexpectedEnd));
    let mut r = Reader::new(&[0x80, 0x80, 0x04]);
    r.word();
    assert_eq!(r.fault, Some(DecodeError::BadNumber));
    let mut r = Reader::new(&[5]);
    let _ = Mirroring::restore(&mut r);
    assert_eq!(r.fault, Some(DecodeError::BadTag));
    let mut r = Reader::new(&[4]);
    let _ = Mapper::restore(&mut r);
    assert_eq!(r.fault, Some(DecodeError::BadTag));
}

#[test]
fn a_frame_paints_the_whole_picture_whatever_was_on_the_screen() {
    let rom = rendering_rom();
    let script = inputs(20);
    for saved_at in [0usize, 1, 9] {
        let saved = ran(&rom, &script[..saved_at]).save_state();
        let mut replayed = ran(&rom, &inputs(4));
        replayed.load_state(&saved).unwrap();
        let mut run = ran(&rom, &script[..saved_at]);
        for (i, input) in script[saved_at..].iter().enumerate() {
            let picture = run.run_frame(*input).hash64();
            let again = replayed.run_frame(*input).hash64();
            if saved_at > 0 || i > 0 {
                assert_eq!(picture, again, "saved at {saved_at}, frame {i}");
            }
            assert_eq!(run.state_hash(), replayed.state_hash());
        }
    }
}

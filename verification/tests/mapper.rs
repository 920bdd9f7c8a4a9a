//! The mappers.

use nes_core::cartridge::{
    Cnrom, Mapper, Mirroring, Mmc1, Nrom, Uxrom, CHR_BANK_SIZE, PRG_BANK_SIZE,
};

/// 每個 16KB bank 的第一個 byte 是 bank 編號的 PRG-ROM。
fn numbered_prg(banks: usize) -> Vec<u8> {
    let mut prg = vec![0u8; banks * PRG_BANK_SIZE];
    for b in 0..banks {
        prg[b * PRG_BANK_SIZE] = b as u8;
    }
    prg
}

/// 每個 4KB 的第一個 byte 是 4KB bank 編號的 CHR-ROM（共 `banks_4k` 個）。
fn numbered_chr(banks_4k: usize) -> Vec<u8> {
    let mut chr = vec![0u8; banks_4k * 0x1000];
    for b in 0..banks_4k {
        chr[b * 0x1000] = b as u8;
    }
    chr
}

/// 依 MMC1 的規則送 5 次寫入（bit 0 先進），寫到 `addr` 指定的暫存器。
fn mmc1_write5(m: &mut Mapper, addr: u16, value: u8) {
    for i in 0..5 {
        m.write_prg(addr, (value >> i) & 1, false);
    }
}

#[test]
fn nrom_32kb_reads_directly() {
    let mut prg = vec![0u8; 2 * PRG_BANK_SIZE];
    prg[0] = 0x11;
    prg[PRG_BANK_SIZE] = 0x22;
    let nrom = Nrom::new(2);
    assert_eq!(nrom.read_prg(&prg, 0x8000), 0x11);
    assert_eq!(nrom.read_prg(&prg, 0xC000), 0x22);
}

#[test]
fn nrom_16kb_mirrors_across_both_halves() {
    let mut prg = vec![0u8; PRG_BANK_SIZE];
    prg[0] = 0x42;
    let nrom = Nrom::new(1);
    assert_eq!(nrom.read_prg(&prg, 0x8000), 0x42);
    assert_eq!(nrom.read_prg(&prg, 0xC000), 0x42);
}

#[test]
fn uxrom_switches_8000_and_fixes_c000_to_the_last_bank() {
    let prg = numbered_prg(8);
    let mut m = Mapper::Uxrom(Uxrom::new());
    assert_eq!(m.read_prg(&prg, 0x8000), 0);
    assert_eq!(m.read_prg(&prg, 0xC000), 7);
    m.write_prg(0x8000, 3, false);
    assert_eq!(m.read_prg(&prg, 0x8000), 3);
    assert_eq!(m.read_prg(&prg, 0xC000), 7, "$C000 永遠是最後一個 bank");
    m.write_prg(0xFFFF, 5, false); // 整個 $8000-$FFFF 都是 bank 暫存器
    assert_eq!(m.read_prg(&prg, 0xBFFF), 0, "bank 5 的最後一個 byte 是 0");
    assert_eq!(m.read_prg(&prg, 0x8000), 5);
    m.write_prg(0x8000, 0xFF, false); // 超出範圍取模，不 panic
    assert_eq!(m.read_prg(&prg, 0x8000), 0xFF % 8);
}

#[test]
fn cnrom_switches_8kb_chr_and_keeps_prg_fixed() {
    let prg = numbered_prg(2);
    let chr: Vec<u8> = (0..4u8).flat_map(|b| vec![b; CHR_BANK_SIZE]).collect();
    let mut m = Mapper::Cnrom(Cnrom::new());
    assert_eq!(m.read_chr(&chr, 0x0000), 0);
    m.write_prg(0x8000, 2, false);
    assert_eq!(m.read_chr(&chr, 0x0000), 2);
    assert_eq!(m.read_chr(&chr, 0x1FFF), 2);
    m.write_prg(0x8000, 7, false); // 7 % 4 = 3
    assert_eq!(m.read_chr(&chr, 0x0123), 3);
    assert_eq!(m.read_prg(&prg, 0x8000), 0);
    assert_eq!(m.read_prg(&prg, 0xC000), 1);
}

#[test]
fn mmc1_five_writes_load_a_register_lsb_first() {
    let mut m = Mapper::Mmc1(Mmc1::new());
    // 只寫 4 次：還沒生效。
    for _ in 0..4 {
        m.write_prg(0x8000, 1, false);
    }
    let Mapper::Mmc1(r) = &m else { unreachable!() };
    assert_eq!(r.control, 0x0C);
    assert_eq!(r.shift_count, 4);
    // 第 5 次寫入 0：收到 1,1,1,1,0（先進的在低位）→ 0b01111 = $0F。
    m.write_prg(0x8000, 0, false);
    let Mapper::Mmc1(r) = &m else { unreachable!() };
    assert_eq!(r.control, 0x0F);
    assert_eq!((r.shift, r.shift_count), (0, 0), "寫入後移位暫存器清空");
}

#[test]
fn mmc1_register_is_selected_by_the_address_of_the_fifth_write() {
    let mut m = Mapper::Mmc1(Mmc1::new());
    mmc1_write5(&mut m, 0xA000, 0x05);
    mmc1_write5(&mut m, 0xC000, 0x06);
    mmc1_write5(&mut m, 0xE000, 0x07);
    mmc1_write5(&mut m, 0x9FFF, 0x12);
    let Mapper::Mmc1(r) = &m else { unreachable!() };
    assert_eq!((r.chr0, r.chr1, r.prg, r.control), (5, 6, 7, 0x12));
}

#[test]
fn mmc1_bit7_resets_the_shift_register_and_forces_prg_mode_3() {
    let mut m = Mapper::Mmc1(Mmc1::new());
    mmc1_write5(&mut m, 0x8000, 0x00); // control = 0：PRG 模式 0、CHR 8KB、單畫面 A
    m.write_prg(0x8000, 1, false);
    m.write_prg(0x8000, 1, false);
    m.write_prg(0x8000, 0x80, false); // 重置
    let Mapper::Mmc1(r) = &m else { unreachable!() };
    assert_eq!((r.shift, r.shift_count), (0, 0));
    assert_eq!(r.control & 0x0C, 0x0C, "PRG 模式被設為 3");
    // 重置後又從第 1 個 bit 開始數。
    mmc1_write5(&mut m, 0xE000, 0x03);
    let Mapper::Mmc1(r) = &m else { unreachable!() };
    assert_eq!(r.prg, 3);
}

#[test]
fn mmc1_prg_modes() {
    let prg = numbered_prg(8);
    let mut m = Mapper::Mmc1(Mmc1::new());
    let first = |m: &Mapper, a| m.read_prg(&prg, a);

    // 模式 3（開機預設）：$8000 切換、$C000 固定最後。
    mmc1_write5(&mut m, 0xE000, 2);
    assert_eq!((first(&m, 0x8000), first(&m, 0xC000)), (2, 7));

    // 模式 2：$8000 固定第一個、$C000 切換。
    mmc1_write5(&mut m, 0x8000, 0b01000 | 0b00010);
    mmc1_write5(&mut m, 0xE000, 5);
    assert_eq!((first(&m, 0x8000), first(&m, 0xC000)), (0, 5));

    // 模式 0/1：32KB，忽略最低位。bank 5 → 4、5。
    for mode_bits in [0b00000u8, 0b00100] {
        mmc1_write5(&mut m, 0x8000, mode_bits | 0b00010);
        mmc1_write5(&mut m, 0xE000, 5);
        assert_eq!((first(&m, 0x8000), first(&m, 0xC000)), (4, 5));
        assert_eq!(first(&m, 0xBFFF), 0);
    }
}

#[test]
fn mmc1_chr_modes() {
    let chr = numbered_chr(8); // 8 個 4KB bank
    let mut m = Mapper::Mmc1(Mmc1::new());

    // 4KB 模式：兩個獨立的 4KB。
    mmc1_write5(&mut m, 0x8000, 0b10000 | 0b01110 | 0b00010);
    mmc1_write5(&mut m, 0xA000, 3);
    mmc1_write5(&mut m, 0xC000, 6);
    assert_eq!(m.read_chr(&chr, 0x0000), 3);
    assert_eq!(m.read_chr(&chr, 0x1000), 6);

    // 8KB 模式：只看 CHR bank 0、忽略最低位；bank 3 → 4KB bank 2、3。
    mmc1_write5(&mut m, 0x8000, 0b01110);
    assert_eq!(m.read_chr(&chr, 0x0000), 2);
    assert_eq!(m.read_chr(&chr, 0x1000), 3);
}

#[test]
fn mmc1_control_selects_mirroring() {
    let mut m = Mapper::Mmc1(Mmc1::new());
    for (bits, expected) in [
        (0, Mirroring::SingleScreenLower),
        (1, Mirroring::SingleScreenUpper),
        (2, Mirroring::Vertical),
        (3, Mirroring::Horizontal),
    ] {
        mmc1_write5(&mut m, 0x8000, 0b01100 | bits);
        assert_eq!(m.mirroring(), Some(expected));
    }
    assert_eq!(Mapper::Nrom(Nrom::new(1)).mirroring(), None);
}

#[test]
fn mmc1_prg_ram_can_be_disabled_by_prg_bit4() {
    let mut m = Mapper::Mmc1(Mmc1::new());
    assert!(m.prg_ram_enabled());
    mmc1_write5(&mut m, 0xE000, 0x10);
    assert!(!m.prg_ram_enabled());
    mmc1_write5(&mut m, 0xE000, 0x00);
    assert!(m.prg_ram_enabled());
    assert!(Mapper::Uxrom(Uxrom::new()).prg_ram_enabled());
}

#[test]
fn mmc1_ignores_a_write_on_the_cycle_right_after_another_write() {
    // 序列寫入的第 5 次是「連續」寫入 → 被忽略，暫存器不會載入。
    let mut m = Mapper::Mmc1(Mmc1::new());
    for _ in 0..4 {
        m.write_prg(0xE000, 1, false);
    }
    m.write_prg(0xE000, 1, true);
    let Mapper::Mmc1(r) = &m else { unreachable!() };
    assert_eq!((r.prg, r.shift_count), (0, 4));

    // 連續寫入的 bit 7 也不會重置。
    m.write_prg(0x8000, 0x80, true);
    let Mapper::Mmc1(r) = &m else { unreachable!() };
    assert_eq!(r.shift_count, 4);
}

#[test]
fn out_of_range_bank_registers_never_index_out_of_bounds() {
    let prg = numbered_prg(2);
    let chr = numbered_chr(2);
    let mut mmc1 = Mmc1::new();
    mmc1.prg = 0x1F;
    mmc1.chr0 = 0x1F;
    mmc1.chr1 = 0x1F;
    let m = Mapper::Mmc1(mmc1);
    for addr in [0x8000u16, 0xBFFF, 0xC000, 0xFFFF] {
        let _ = m.read_prg(&prg, addr);
    }
    for addr in [0x0000u16, 0x0FFF, 0x1000, 0x1FFF] {
        let _ = m.read_chr(&chr, addr);
    }
    let _ = m.read_chr(&[], 0x0000);
    let _ = m.read_prg(&[], 0x8000);
}

#[test]
fn debug_rows_report_the_effective_banks() {
    let mut m = Mapper::Mmc1(Mmc1::new());
    mmc1_write5(&mut m, 0xE000, 2);
    let rows = m.debug_rows(8 * PRG_BANK_SIZE, 8 * 0x1000);
    let get = |k: &str| rows.iter().find(|(name, _)| name == k).unwrap().1.clone();
    assert_eq!(get("PRG $8000-$BFFF"), "bank 2");
    assert_eq!(get("PRG $C000-$FFFF"), "bank 7");
    assert_eq!(get("PRG bank ($E000)"), "$02");
}

#[test]
fn tampered_mmc1_registers_are_reported_as_structurally_invalid() {
    assert!(Mmc1::new().is_structurally_valid());
    for tamper in [
        (|m: &mut Mmc1| m.shift_count = 5) as fn(&mut Mmc1),
        |m| m.shift = 0x20,
        |m| m.control = 0xFF,
        |m| m.chr0 = 0x20,
        |m| m.chr1 = 0x80,
        |m| m.prg = 0x20,
    ] {
        let mut m = Mmc1::new();
        tamper(&mut m);
        assert!(!Mapper::Mmc1(m).is_structurally_valid());
    }
}

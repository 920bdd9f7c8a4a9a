//! The bus.

use nes_core::bus::Bus;
use nes_core::cartridge::{
    Cartridge, Mapper, Mirroring, Nrom, RomId, RomInfo, PRG_BANK_SIZE, PRG_RAM_SIZE,
};
use nes_core::cpu::Cpu;
use nes_core::{Buttons, StatusFlags};

fn test_cartridge() -> Cartridge {
    let prg_rom = vec![0xEAu8; PRG_BANK_SIZE]; // 全部填 NOP
    Cartridge {
        info: RomInfo {
            prg_rom_banks: 1,
            chr_rom_banks: 1,
            mapper_id: 0,
            mirroring: Mirroring::Horizontal,
            battery_backed: false,
            has_trainer: false,
        },
        prg_rom,
        chr_rom: vec![0u8; 8192],
        chr_ram: Vec::new(),
        prg_ram: vec![0u8; PRG_RAM_SIZE],
        mapper: Mapper::Nrom(Nrom::new(1)),
        rom_id: RomId::default(),
    }
}

#[test]
fn ram_mirrors_every_0x800() {
    let mut bus = Bus::new(test_cartridge());
    bus.write(0x0000, 0x42);
    assert_eq!(bus.read(0x0800), 0x42);
    assert_eq!(bus.read(0x1000), 0x42);
    assert_eq!(bus.read(0x1800), 0x42);
}

#[test]
fn ppu_register_mirrors_every_8_bytes() {
    let mut bus = Bus::new(test_cartridge());
    bus.write(0x2000, 0x11);
    assert_eq!(bus.peek(0x2008), 0x11);
    assert_eq!(bus.peek(0x3FF8), 0x11);
}

#[test]
fn prg_ram_is_readable_and_writable() {
    let mut bus = Bus::new(test_cartridge());
    bus.write(0x6000, 0x99);
    bus.write(0x7FFF, 0x55);
    assert_eq!(bus.read(0x6000), 0x99);
    assert_eq!(bus.read(0x7FFF), 0x55);
    assert_eq!(bus.read(0x6001), 0); // 沒寫過的位置維持初始值
}

#[test]
fn unmapped_region_returns_open_bus() {
    let mut bus = Bus::new(test_cartridge());
    bus.write(0x0000, 0x77); // 讓 open_bus 變成已知值
    let _ = bus.read(0x0000);
    assert_eq!(bus.read(0x4020), 0x77);
    assert_eq!(bus.read(0x5FFF), 0x77);
}

#[test]
fn tick_advances_total_cycles_and_ppu_dot() {
    let mut bus = Bus::new(test_cartridge());
    bus.tick(7);
    assert_eq!(bus.total_cycles(), 7);
    assert_eq!(bus.ppu_dot(), (0, 21));
}

#[test]
fn peek_has_no_side_effects_on_oam_addr() {
    let bus = Bus::new(test_cartridge());
    let before = bus.peek(0x2004);
    let after = bus.peek(0x2004);
    assert_eq!(before, after);
}

#[test]
fn oam_dma_copies_a_page_starting_at_oamaddr_and_wraps() {
    let mut bus = Bus::new(test_cartridge());
    for i in 0..256usize {
        bus.ram[0x200 + i] = i as u8;
    }
    bus.write(0x2003, 0x10); // OAMADDR = $10
    bus.write(0x4014, 0x02);
    let stall = bus.run_pending_oam_dma();

    assert!(stall == 513 || stall == 514);
    assert_eq!(bus.ppu.oam[0x10], 0, "複製從 OAMADDR 開始");
    assert_eq!(bus.ppu.oam[0x11], 1);
    assert_eq!(bus.ppu.oam[0x0F], 255, "繞回 OAM 開頭");
    assert_eq!(bus.ppu.oam_addr, 0x10, "OAMADDR 維持不變");
    assert_eq!(bus.run_pending_oam_dma(), 0, "只執行一次");
}

#[test]
fn oam_dma_stall_is_514_cycles_when_started_on_an_odd_cycle() {
    let mut even = Bus::new(test_cartridge());
    even.write(0x4014, 0x00);
    let a = even.run_pending_oam_dma();

    let mut odd = Bus::new(test_cartridge());
    odd.tick(1);
    odd.write(0x4014, 0x00);
    let b = odd.run_pending_oam_dma();

    assert_eq!((a, b), (513, 514));
    assert_eq!(odd.total_cycles(), 1 + 514);
}

#[test]
fn joypad_registers_shift_through_the_bus_and_have_open_bus_high_bits() {
    let mut bus = Bus::new(test_cartridge());
    bus.joypads[0].state = Buttons::a() | Buttons::left();
    bus.joypads[1].state = Buttons::b();
    bus.write(0x4016, 1);
    bus.write(0x4016, 0);

    // 先把匯流排上的值設成 $40（實機上是位址高位元組）。
    bus.open_bus = 0x40;
    assert_eq!(bus.read(0x4016), 0x41, "A 有按");
    bus.open_bus = 0x40;
    assert_eq!(bus.read(0x4016), 0x40, "B 沒按");
    bus.open_bus = 0x40;
    assert_eq!(bus.read(0x4017), 0x40, "玩家 2 的 A 沒按");
    bus.open_bus = 0x40;
    assert_eq!(bus.read(0x4017), 0x41, "玩家 2 的 B 有按");

    // peek 不移位。
    let before = bus.peek(0x4016);
    assert_eq!(bus.peek(0x4016), before);
}

#[test]
fn ppu_registers_are_reachable_through_the_bus_with_side_effects() {
    let mut bus = Bus::new(test_cartridge());
    bus.write(0x2006, 0x21);
    bus.write(0x2006, 0x00);
    bus.write(0x2007, 0x5A);
    bus.write(0x2006, 0x21);
    bus.write(0x2006, 0x00);
    let _stale = bus.read(0x2007);
    assert_eq!(bus.read(0x2007), 0x5A, "經 bus 讀 $2007 有緩衝的副作用");
    // 鏡像：$3FFF 等於 $2007。
    bus.write(0x2006, 0x21);
    bus.write(0x2006, 0x00);
    let _stale = bus.read(0x3FFF);
    assert_eq!(bus.read(0x2007), 0x5A);
}

#[test]
fn nmi_is_taken_between_instructions_and_costs_7_cycles() {
    let mut bus = Bus::new(test_cartridge());
    bus.ppu.ctrl = 0x80;
    let mut cpu = Cpu::new(bus);
    cpu.pc = 0x8000;
    while cpu.bus().ppu.scanline < 241 || cpu.bus().ppu.cycle < 3 {
        cpu.step();
    }
    let before = cpu.bus().total_cycles();
    let sp = cpu.sp;
    let cycles = cpu.step();
    assert_eq!(cycles, 7);
    assert_eq!(cpu.bus().total_cycles(), before + 7);
    assert_eq!(cpu.sp, sp.wrapping_sub(3), "推入 PC（2）與 P（1）");
    assert!(cpu.status.contains(StatusFlags::INTERRUPT));
}

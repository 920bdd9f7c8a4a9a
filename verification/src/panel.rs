//! What the panels of the debugger show.

use vstd::prelude::*;
use vstd::string::*;

use crate::cartridge::mapper::row_texts;
use crate::cartridge::DebugRow;
use crate::debug::{ApuDebug, DebugSnapshot, DmcDebug, NoiseDebug, PulseDebug, TriangleDebug};
use crate::ppu::palette::SYSTEM_PALETTE;
use crate::text::{dec, hex, push_dec, push_hex};

verus! {

/// The panels.
#[derive(Debug, Clone, Copy, PartialEq, Eq, Structural)]
pub enum Tab {
    Cpu,
    Ppu,
    Palette,
    Oam,
    Mapper,
    Apu,
    Patterns,
    Nametables,
}

/// The panels, in the order in which they are offered.
pub const TABS: [Tab; 8] = [
    Tab::Cpu,
    Tab::Ppu,
    Tab::Palette,
    Tab::Oam,
    Tab::Mapper,
    Tab::Apu,
    Tab::Patterns,
    Tab::Nametables,
];

impl Tab {
    pub open spec fn name(self) -> Seq<char> {
        match self {
            Tab::Cpu => "CPU"@,
            Tab::Ppu => "PPU"@,
            Tab::Palette => "調色盤"@,
            Tab::Oam => "OAM"@,
            Tab::Mapper => "Mapper"@,
            Tab::Apu => "APU"@,
            Tab::Patterns => "Pattern"@,
            Tab::Nametables => "Nametable"@,
        }
    }

    pub fn label(self) -> (label: &'static str)
        ensures
            label@ == self.name(),
    {
        match self {
            Tab::Cpu => "CPU",
            Tab::Ppu => "PPU",
            Tab::Palette => "調色盤",
            Tab::Oam => "OAM",
            Tab::Mapper => "Mapper",
            Tab::Apu => "APU",
            Tab::Patterns => "Pattern",
            Tab::Nametables => "Nametable",
        }
    }

    /// The panel shows pictures of the PPU memory.
    pub fn needs_views(self) -> (needed: bool)
        ensures
            needed == (self is Patterns || self is Nametables),
    {
        match self {
            Tab::Patterns | Tab::Nametables => true,
            _ => false,
        }
    }
}

/// The pictures of the PPU memory that are asked for.
#[derive(Debug, Clone, Copy, PartialEq, Eq, Structural)]
pub struct ViewRequest {
    /// The palette that was asked for, or nothing.
    pub requested: Option<u8>,
}

impl ViewRequest {
    pub fn new() -> (request: Self)
        ensures
            request.requested is None,
    {
        ViewRequest { requested: None }
    }

    /// What is wanted: the palette, if the panel is open and shows pictures.
    pub open spec fn wanted(open: bool, tab: Tab, palette: u8) -> Option<u8> {
        if open && (tab is Patterns || tab is Nametables) { Some(palette) } else { None }
    }

    /// Asks for what is wanted. Returns what to ask, if it is not what was asked already.
    pub fn sync(&mut self, open: bool, tab: Tab, palette: u8) -> (ask: Option<Option<u8>>)
        ensures
            final(self).requested == ViewRequest::wanted(open, tab, palette),
            ask == if old(self).requested == ViewRequest::wanted(open, tab, palette) {
                None
            } else {
                Some(ViewRequest::wanted(open, tab, palette))
            },
    {
        let wanted: Option<u8> = if open && tab.needs_views() {
            Some(palette)
        } else {
            None
        };
        let known: bool = match (wanted, self.requested) {
            (Some(a), Some(b)) => a == b,
            (None, None) => true,
            _ => false,
        };
        self.requested = wanted;
        if known {
            None
        } else {
            Some(wanted)
        }
    }
}

/// One bit.
pub open spec fn bit_of(value: u8, bit: u8) -> u8 {
    (value >> bit) & 1
}

pub fn flag(value: u8, bit: u8) -> (set: u8)
    requires
        bit < 8,
    ensures
        set == bit_of(value, bit),
{
    (value >> bit) & 1
}

pub open spec fn yes_text(v: bool) -> Seq<char> {
    if v { "是"@ } else { "否"@ }
}

pub fn yes(v: bool) -> (text: &'static str)
    ensures
        text@ == yes_text(v),
{
    if v {
        "是"
    } else {
        "否"
    }
}

/// The entry of palette memory that is seen at `i`: the first of each sprite palette is that of
/// the background.
pub open spec fn seen_index(i: nat) -> nat {
    if i % 4 == 0 { i % 16 } else { i }
}

pub fn palette_index(i: usize) -> (index: usize)
    ensures
        index == seen_index(i as nat),
{
    if i % 4 == 0 {
        i % 16
    } else {
        i
    }
}

/// The mode of the frame counter.
pub open spec fn counter_mode(apu: ApuDebug) -> Seq<char> {
    (if apu.frame_mode5 { "5"@ } else { "4"@ }) + "步模式"@ + (if apu.frame_inhibit_irq {
        "（IRQ 抑制）"@
    } else {
        ""@
    })
}

pub fn frame_counter_text(apu: &ApuDebug) -> (text: String)
    ensures
        text@ == counter_mode(*apu),
{
    let mut text: String = if apu.frame_mode5 {
        "5".to_owned()
    } else {
        "4".to_owned()
    };
    text.append("步模式");
    text.append(if apu.frame_inhibit_irq {
        "（IRQ 抑制）"
    } else {
        ""
    });
    text
}

/// The texts of lines.
pub open spec fn line_texts(lines: Seq<String>) -> Seq<Seq<char>> {
    Seq::new(lines.len(), |i: int| lines[i]@)
}

fn push_line(lines: &mut Vec<String>, line: String)
    ensures
        line_texts(final(lines)@) == line_texts(old(lines)@).push(line@),
{
    lines.push(line);
    assert(line_texts(lines@) =~= line_texts(old(lines)@).push(line@));
}

fn push_row(rows: &mut Vec<DebugRow>, label: &str, value: String)
    ensures
        row_texts(final(rows)@) == row_texts(old(rows)@).push((label@, value@)),
{
    rows.push((label.to_owned(), value));
    assert(row_texts(rows@) =~= row_texts(old(rows)@).push((label@, value@)));
}

/// The program counter.
pub open spec fn cpu_pc_line_text(snap: DebugSnapshot) -> Seq<char> {
    "PC: 0x"@ + hex(snap.cpu_pc as nat, 4)
}

fn cpu_pc_line(snap: &DebugSnapshot) -> (text: String)
    ensures
        text@ == cpu_pc_line_text(*snap),
{
    let mut text: String = "PC: 0x".to_owned();
    push_hex(&mut text, snap.cpu_pc as u64, 4);
    assert(text@ =~= cpu_pc_line_text(*snap));
    text
}

/// The registers.
pub open spec fn cpu_registers_line_text(snap: DebugSnapshot) -> Seq<char> {
    "A: 0x"@ + hex(snap.cpu_a as nat, 2) + "  X: 0x"@ + hex(snap.cpu_x as nat, 2) + "  Y: 0x"@
        + hex(snap.cpu_y as nat, 2)
}

fn cpu_registers_line(snap: &DebugSnapshot) -> (text: String)
    ensures
        text@ == cpu_registers_line_text(*snap),
{
    let mut text: String = "A: 0x".to_owned();
    push_hex(&mut text, snap.cpu_a as u64, 2);
    text.append("  X: 0x");
    push_hex(&mut text, snap.cpu_x as u64, 2);
    text.append("  Y: 0x");
    push_hex(&mut text, snap.cpu_y as u64, 2);
    assert(text@ =~= cpu_registers_line_text(*snap));
    text
}

/// The stack pointer and the flags.
pub open spec fn cpu_stack_line_text(snap: DebugSnapshot) -> Seq<char> {
    "SP: 0x"@ + hex(snap.cpu_sp as nat, 2) + "  Status: 0x"@ + hex(snap.cpu_status as nat, 2)
}

fn cpu_stack_line(snap: &DebugSnapshot) -> (text: String)
    ensures
        text@ == cpu_stack_line_text(*snap),
{
    let mut text: String = "SP: 0x".to_owned();
    push_hex(&mut text, snap.cpu_sp as u64, 2);
    text.append("  Status: 0x");
    push_hex(&mut text, snap.cpu_status as u64, 2);
    assert(text@ =~= cpu_stack_line_text(*snap));
    text
}

/// The cycles.
pub open spec fn cpu_cycles_line_text(snap: DebugSnapshot) -> Seq<char> {
    "CPU cycles: "@ + dec(snap.cpu_cycles as nat)
}

fn cpu_cycles_line(snap: &DebugSnapshot) -> (text: String)
    ensures
        text@ == cpu_cycles_line_text(*snap),
{
    let mut text: String = "CPU cycles: ".to_owned();
    push_dec(&mut text, snap.cpu_cycles as u64);
    assert(text@ =~= cpu_cycles_line_text(*snap));
    text
}

/// The instruction that is next.
pub open spec fn cpu_next_line_text(snap: DebugSnapshot) -> Seq<char> {
    "下一條指令: "@ + snap.cpu_disassembly@
}

fn cpu_next_line(snap: &DebugSnapshot) -> (text: String)
    ensures
        text@ == cpu_next_line_text(*snap),
{
    let mut text: String = "下一條指令: ".to_owned();
    text.append(snap.cpu_disassembly.as_str());
    assert(text@ =~= cpu_next_line_text(*snap));
    text
}

/// The frame counter of the APU.
pub open spec fn cpu_counter_line_text(snap: DebugSnapshot) -> Seq<char> {
    "APU frame counter: "@ + counter_mode(snap.apu)
}

fn cpu_counter_line(snap: &DebugSnapshot) -> (text: String)
    ensures
        text@ == cpu_counter_line_text(*snap),
{
    let mut text: String = "APU frame counter: ".to_owned();
    text.append(frame_counter_text(&snap.apu).as_str());
    assert(text@ =~= cpu_counter_line_text(*snap));
    text
}

/// What the CPU panel shows.
pub open spec fn cpu_lines_texts(snap: DebugSnapshot) -> Seq<Seq<char>> {
    seq![
        cpu_pc_line_text(snap),
        cpu_registers_line_text(snap),
        cpu_stack_line_text(snap),
        cpu_cycles_line_text(snap),
        cpu_next_line_text(snap),
        cpu_counter_line_text(snap),
    ]
}

pub fn cpu_lines(snap: &DebugSnapshot) -> (lines: Vec<String>)
    ensures
        line_texts(lines@) == cpu_lines_texts(*snap),
{
    let mut lines: Vec<String> = Vec::new();
    push_line(&mut lines, cpu_pc_line(snap));
    push_line(&mut lines, cpu_registers_line(snap));
    push_line(&mut lines, cpu_stack_line(snap));
    push_line(&mut lines, cpu_cycles_line(snap));
    push_line(&mut lines, cpu_next_line(snap));
    push_line(&mut lines, cpu_counter_line(snap));
    assert(line_texts(lines@) =~= cpu_lines_texts(*snap));
    lines
}

/// Where the PPU is.
pub open spec fn ppu_position_line_text(snap: DebugSnapshot) -> Seq<char> {
    "掃描線: "@ + dec(snap.ppu_scanline as nat) + "  dot: "@ + dec(snap.ppu_cycle as nat)
        + "  PPU 幀: "@ + dec(snap.ppu_frame as nat)
}

fn ppu_position_line(snap: &DebugSnapshot) -> (text: String)
    ensures
        text@ == ppu_position_line_text(*snap),
{
    let mut text: String = "掃描線: ".to_owned();
    push_dec(&mut text, snap.ppu_scanline as u64);
    text.append("  dot: ");
    push_dec(&mut text, snap.ppu_cycle as u64);
    text.append("  PPU 幀: ");
    push_dec(&mut text, snap.ppu_frame as u64);
    assert(text@ =~= ppu_position_line_text(*snap));
    text
}

/// The control register.
pub open spec fn ppu_ctrl_line_text(snap: DebugSnapshot) -> Seq<char> {
    "PPUCTRL   $"@ + hex(snap.ppu_ctrl as nat, 2)
}

fn ppu_ctrl_line(snap: &DebugSnapshot) -> (text: String)
    ensures
        text@ == ppu_ctrl_line_text(*snap),
{
    let mut text: String = "PPUCTRL   $".to_owned();
    push_hex(&mut text, snap.ppu_ctrl as u64, 2);
    assert(text@ =~= ppu_ctrl_line_text(*snap));
    text
}

/// The bits of the control register.
pub open spec fn ppu_ctrl_bits_line_text(snap: DebugSnapshot) -> Seq<char> {
    "NMI:"@ + dec(bit_of(snap.ppu_ctrl, 7) as nat) + " 精靈8x16:"@
        + dec(bit_of(snap.ppu_ctrl, 5) as nat) + " BG表:"@
        + dec(bit_of(snap.ppu_ctrl, 4) as nat) + " 精靈表:"@
        + dec(bit_of(snap.ppu_ctrl, 3) as nat) + " 遞增32:"@
        + dec(bit_of(snap.ppu_ctrl, 2) as nat) + " NT:"@ + dec((snap.ppu_ctrl % 4) as nat)
}

fn ppu_ctrl_bits_line(snap: &DebugSnapshot) -> (text: String)
    ensures
        text@ == ppu_ctrl_bits_line_text(*snap),
{
    let mut text: String = "NMI:".to_owned();
    push_dec(&mut text, flag(snap.ppu_ctrl, 7) as u64);
    text.append(" 精靈8x16:");
    push_dec(&mut text, flag(snap.ppu_ctrl, 5) as u64);
    text.append(" BG表:");
    push_dec(&mut text, flag(snap.ppu_ctrl, 4) as u64);
    text.append(" 精靈表:");
    push_dec(&mut text, flag(snap.ppu_ctrl, 3) as u64);
    text.append(" 遞增32:");
    push_dec(&mut text, flag(snap.ppu_ctrl, 2) as u64);
    text.append(" NT:");
    push_dec(&mut text, (snap.ppu_ctrl % 4) as u64);
    assert(text@ =~= ppu_ctrl_bits_line_text(*snap));
    text
}

/// The mask register.
pub open spec fn ppu_mask_line_text(snap: DebugSnapshot) -> Seq<char> {
    "PPUMASK   $"@ + hex(snap.ppu_mask as nat, 2)
}

fn ppu_mask_line(snap: &DebugSnapshot) -> (text: String)
    ensures
        text@ == ppu_mask_line_text(*snap),
{
    let mut text: String = "PPUMASK   $".to_owned();
    push_hex(&mut text, snap.ppu_mask as u64, 2);
    assert(text@ =~= ppu_mask_line_text(*snap));
    text
}

/// The bits of the mask register.
pub open spec fn ppu_mask_bits_line_text(snap: DebugSnapshot) -> Seq<char> {
    "灰階:"@ + dec(bit_of(snap.ppu_mask, 0) as nat) + " BG左:"@
        + dec(bit_of(snap.ppu_mask, 1) as nat) + " 精靈左:"@
        + dec(bit_of(snap.ppu_mask, 2) as nat) + " BG:"@ + dec(bit_of(snap.ppu_mask, 3) as nat)
        + " 精靈:"@ + dec(bit_of(snap.ppu_mask, 4) as nat) + " 強調 RGB:"@
        + dec(bit_of(snap.ppu_mask, 5) as nat) + dec(bit_of(snap.ppu_mask, 6) as nat)
        + dec(bit_of(snap.ppu_mask, 7) as nat)
}

fn ppu_mask_bits_line(snap: &DebugSnapshot) -> (text: String)
    ensures
        text@ == ppu_mask_bits_line_text(*snap),
{
    let mut text: String = "灰階:".to_owned();
    push_dec(&mut text, flag(snap.ppu_mask, 0) as u64);
    text.append(" BG左:");
    push_dec(&mut text, flag(snap.ppu_mask, 1) as u64);
    text.append(" 精靈左:");
    push_dec(&mut text, flag(snap.ppu_mask, 2) as u64);
    text.append(" BG:");
    push_dec(&mut text, flag(snap.ppu_mask, 3) as u64);
    text.append(" 精靈:");
    push_dec(&mut text, flag(snap.ppu_mask, 4) as u64);
    text.append(" 強調 RGB:");
    push_dec(&mut text, flag(snap.ppu_mask, 5) as u64);
    push_dec(&mut text, flag(snap.ppu_mask, 6) as u64);
    push_dec(&mut text, flag(snap.ppu_mask, 7) as u64);
    assert(text@ =~= ppu_mask_bits_line_text(*snap));
    text
}

/// The status register.
pub open spec fn ppu_status_line_text(snap: DebugSnapshot) -> Seq<char> {
    "PPUSTATUS $"@ + hex(snap.ppu_status as nat, 2)
}

fn ppu_status_line(snap: &DebugSnapshot) -> (text: String)
    ensures
        text@ == ppu_status_line_text(*snap),
{
    let mut text: String = "PPUSTATUS $".to_owned();
    push_hex(&mut text, snap.ppu_status as u64, 2);
    assert(text@ =~= ppu_status_line_text(*snap));
    text
}

/// The bits of the status register.
pub open spec fn ppu_status_bits_line_text(snap: DebugSnapshot) -> Seq<char> {
    "VBlank:"@ + dec(bit_of(snap.ppu_status, 7) as nat) + " Sprite0:"@
        + dec(bit_of(snap.ppu_status, 6) as nat) + " Overflow:"@
        + dec(bit_of(snap.ppu_status, 5) as nat)
}

fn ppu_status_bits_line(snap: &DebugSnapshot) -> (text: String)
    ensures
        text@ == ppu_status_bits_line_text(*snap),
{
    let mut text: String = "VBlank:".to_owned();
    push_dec(&mut text, flag(snap.ppu_status, 7) as u64);
    text.append(" Sprite0:");
    push_dec(&mut text, flag(snap.ppu_status, 6) as u64);
    text.append(" Overflow:");
    push_dec(&mut text, flag(snap.ppu_status, 5) as u64);
    assert(text@ =~= ppu_status_bits_line_text(*snap));
    text
}

/// The address in sprite memory.
pub open spec fn ppu_oam_addr_line_text(snap: DebugSnapshot) -> Seq<char> {
    "OAMADDR   $"@ + hex(snap.ppu_oam_addr as nat, 2)
}

fn ppu_oam_addr_line(snap: &DebugSnapshot) -> (text: String)
    ensures
        text@ == ppu_oam_addr_line_text(*snap),
{
    let mut text: String = "OAMADDR   $".to_owned();
    push_hex(&mut text, snap.ppu_oam_addr as u64, 2);
    assert(text@ =~= ppu_oam_addr_line_text(*snap));
    text
}

/// The address registers.
pub open spec fn ppu_address_line_text(snap: DebugSnapshot) -> Seq<char> {
    "v: $"@ + hex(snap.ppu_v as nat, 4) + "  t: $"@ + hex(snap.ppu_t as nat, 4)
}

fn ppu_address_line(snap: &DebugSnapshot) -> (text: String)
    ensures
        text@ == ppu_address_line_text(*snap),
{
    let mut text: String = "v: $".to_owned();
    push_hex(&mut text, snap.ppu_v as u64, 4);
    text.append("  t: $");
    push_hex(&mut text, snap.ppu_t as u64, 4);
    assert(text@ =~= ppu_address_line_text(*snap));
    text
}

/// The scroll position in `v`.
pub open spec fn ppu_scroll_line_text(snap: DebugSnapshot) -> Seq<char> {
    "v → coarseX:"@ + dec((snap.ppu_v % 32) as nat) + " coarseY:"@
        + dec((snap.ppu_v / 32 % 32) as nat) + " NT:"@ + dec((snap.ppu_v / 1024 % 4) as nat)
        + " fineY:"@ + dec((snap.ppu_v / 4096 % 8) as nat)
}

fn ppu_scroll_line(snap: &DebugSnapshot) -> (text: String)
    ensures
        text@ == ppu_scroll_line_text(*snap),
{
    let mut text: String = "v → coarseX:".to_owned();
    push_dec(&mut text, (snap.ppu_v % 32) as u64);
    text.append(" coarseY:");
    push_dec(&mut text, (snap.ppu_v / 32 % 32) as u64);
    text.append(" NT:");
    push_dec(&mut text, (snap.ppu_v / 1024 % 4) as u64);
    text.append(" fineY:");
    push_dec(&mut text, (snap.ppu_v / 4096 % 8) as u64);
    assert(text@ =~= ppu_scroll_line_text(*snap));
    text
}

/// The fine scroll and the write toggle.
pub open spec fn ppu_fine_line_text(snap: DebugSnapshot) -> Seq<char> {
    "fine X: "@ + dec(snap.ppu_fine_x as nat) + "  w: "@ + (if snap.ppu_w { "1"@ } else { "0"@ })
}

fn ppu_fine_line(snap: &DebugSnapshot) -> (text: String)
    ensures
        text@ == ppu_fine_line_text(*snap),
{
    let mut text: String = "fine X: ".to_owned();
    push_dec(&mut text, snap.ppu_fine_x as u64);
    text.append("  w: ");
    text.append(if snap.ppu_w {
        "1"
    } else {
        "0"
    });
    assert(text@ =~= ppu_fine_line_text(*snap));
    text
}

/// What the PPU panel shows.
pub open spec fn ppu_lines_texts(snap: DebugSnapshot) -> Seq<Seq<char>> {
    seq![
        ppu_position_line_text(snap),
        ppu_ctrl_line_text(snap),
        ppu_ctrl_bits_line_text(snap),
        ppu_mask_line_text(snap),
        ppu_mask_bits_line_text(snap),
        ppu_status_line_text(snap),
        ppu_status_bits_line_text(snap),
        ppu_oam_addr_line_text(snap),
        ppu_address_line_text(snap),
        ppu_scroll_line_text(snap),
        ppu_fine_line_text(snap),
    ]
}

pub fn ppu_lines(snap: &DebugSnapshot) -> (lines: Vec<String>)
    ensures
        line_texts(lines@) == ppu_lines_texts(*snap),
{
    let mut lines: Vec<String> = Vec::new();
    push_line(&mut lines, ppu_position_line(snap));
    push_line(&mut lines, ppu_ctrl_line(snap));
    push_line(&mut lines, ppu_ctrl_bits_line(snap));
    push_line(&mut lines, ppu_mask_line(snap));
    push_line(&mut lines, ppu_mask_bits_line(snap));
    push_line(&mut lines, ppu_status_line(snap));
    push_line(&mut lines, ppu_status_bits_line(snap));
    push_line(&mut lines, ppu_oam_addr_line(snap));
    push_line(&mut lines, ppu_address_line(snap));
    push_line(&mut lines, ppu_scroll_line(snap));
    push_line(&mut lines, ppu_fine_line(snap));
    assert(line_texts(lines@) =~= ppu_lines_texts(*snap));
    lines
}

/// The step and the cycle of the frame counter.
pub open spec fn apu_step_text(apu: ApuDebug) -> Seq<char> {
    dec(apu.frame_step as nat) + " / "@ + dec(apu.frame_cycle as nat)
}

fn apu_step(apu: &ApuDebug) -> (text: String)
    ensures
        text@ == apu_step_text(*apu),
{
    let mut text: String = String::new();
    push_dec(&mut text, apu.frame_step as u64);
    text.append(" / ");
    push_dec(&mut text, apu.frame_cycle as u64);
    assert(text@ =~= apu_step_text(*apu));
    text
}

/// The interrupt of the frame counter.
pub open spec fn apu_frame_irq_text(apu: ApuDebug) -> Seq<char> {
    yes_text(apu.frame_irq)
}

fn apu_frame_irq(apu: &ApuDebug) -> (text: String)
    ensures
        text@ == apu_frame_irq_text(*apu),
{
    let mut text: String = String::new();
    text.append(yes(apu.frame_irq));
    assert(text@ =~= apu_frame_irq_text(*apu));
    text
}

/// The interrupt of the DMC.
pub open spec fn apu_dmc_irq_text(apu: ApuDebug) -> Seq<char> {
    yes_text(apu.dmc.irq_flag)
}

fn apu_dmc_irq(apu: &ApuDebug) -> (text: String)
    ensures
        text@ == apu_dmc_irq_text(*apu),
{
    let mut text: String = String::new();
    text.append(yes(apu.dmc.irq_flag));
    assert(text@ =~= apu_dmc_irq_text(*apu));
    text
}

/// The status register.
pub open spec fn apu_status_text(apu: ApuDebug) -> Seq<char> {
    "$"@ + hex(apu.status as nat, 2)
}

fn apu_status(apu: &ApuDebug) -> (text: String)
    ensures
        text@ == apu_status_text(*apu),
{
    let mut text: String = "$".to_owned();
    push_hex(&mut text, apu.status as u64, 2);
    assert(text@ =~= apu_status_text(*apu));
    text
}

/// The rows on the frame counter.
pub open spec fn frame_rows_texts(apu: ApuDebug) -> Seq<(Seq<char>, Seq<char>)> {
    seq![
        ("模式"@, counter_mode(apu)),
        ("下一步驟／已過 cycle"@, apu_step_text(apu)),
        ("Frame IRQ 旗標"@, apu_frame_irq_text(apu)),
        ("DMC IRQ 旗標"@, apu_dmc_irq_text(apu)),
        ("$4015 讀值"@, apu_status_text(apu)),
    ]
}

pub fn frame_rows(apu: &ApuDebug) -> (rows: Vec<DebugRow>)
    ensures
        row_texts(rows@) == frame_rows_texts(*apu),
{
    let mut rows: Vec<DebugRow> = Vec::new();
    push_row(&mut rows, "模式", frame_counter_text(apu));
    push_row(&mut rows, "下一步驟／已過 cycle", apu_step(apu));
    push_row(&mut rows, "Frame IRQ 旗標", apu_frame_irq(apu));
    push_row(&mut rows, "DMC IRQ 旗標", apu_dmc_irq(apu));
    push_row(&mut rows, "$4015 讀值", apu_status(apu));
    assert(row_texts(rows@) =~= frame_rows_texts(*apu));
    rows
}

/// Whether the channel is on.
pub open spec fn pulse_enabled_text(p: PulseDebug) -> Seq<char> {
    yes_text(p.enabled)
}

fn pulse_enabled(p: &PulseDebug) -> (text: String)
    ensures
        text@ == pulse_enabled_text(*p),
{
    let mut text: String = String::new();
    text.append(yes(p.enabled));
    assert(text@ =~= pulse_enabled_text(*p));
    text
}

/// The duty cycle.
pub open spec fn pulse_duty_text(p: PulseDebug) -> Seq<char> {
    dec(p.duty as nat)
}

fn pulse_duty(p: &PulseDebug) -> (text: String)
    ensures
        text@ == pulse_duty_text(*p),
{
    let mut text: String = String::new();
    push_dec(&mut text, p.duty as u64);
    assert(text@ =~= pulse_duty_text(*p));
    text
}

/// The length counter.
pub open spec fn pulse_length_text(p: PulseDebug) -> Seq<char> {
    dec(p.length as nat) + (if p.halt { "（halt）"@ } else { ""@ })
}

fn pulse_length(p: &PulseDebug) -> (text: String)
    ensures
        text@ == pulse_length_text(*p),
{
    let mut text: String = String::new();
    push_dec(&mut text, p.length as u64);
    text.append(if p.halt {
        "（halt）"
    } else {
        ""
    });
    assert(text@ =~= pulse_length_text(*p));
    text
}

/// The volume.
pub open spec fn pulse_volume_text(p: PulseDebug) -> Seq<char> {
    (if p.constant { "固定"@ } else { "包絡線"@ }) + " "@ + dec(p.volume as nat) + "（衰減 "@
        + dec(p.envelope as nat) + "）"@
}

fn pulse_volume(p: &PulseDebug) -> (text: String)
    ensures
        text@ == pulse_volume_text(*p),
{
    let mut text: String = String::new();
    text.append(if p.constant {
        "固定"
    } else {
        "包絡線"
    });
    text.append(" ");
    push_dec(&mut text, p.volume as u64);
    text.append("（衰減 ");
    push_dec(&mut text, p.envelope as u64);
    text.append("）");
    assert(text@ =~= pulse_volume_text(*p));
    text
}

/// The sweep unit.
pub open spec fn pulse_sweep_text(p: PulseDebug) -> Seq<char> {
    (if p.sweep_enabled { "開"@ } else { "關"@ }) + " 週期 "@ + dec(p.sweep_period as nat) + " "@
        + (if p.sweep_negate { "往下"@ } else { "往上"@ }) + " 位移 "@ + dec(p.sweep_shift as nat)
}

fn pulse_sweep(p: &PulseDebug) -> (text: String)
    ensures
        text@ == pulse_sweep_text(*p),
{
    let mut text: String = String::new();
    text.append(if p.sweep_enabled {
        "開"
    } else {
        "關"
    });
    text.append(" 週期 ");
    push_dec(&mut text, p.sweep_period as u64);
    text.append(" ");
    text.append(if p.sweep_negate {
        "往下"
    } else {
        "往上"
    });
    text.append(" 位移 ");
    push_dec(&mut text, p.sweep_shift as u64);
    assert(text@ =~= pulse_sweep_text(*p));
    text
}

/// The position in the sequence, and the output.
pub open spec fn pulse_position_text(p: PulseDebug) -> Seq<char> {
    dec(p.seq as nat) + " / "@ + dec(p.output as nat)
}

fn pulse_position(p: &PulseDebug) -> (text: String)
    ensures
        text@ == pulse_position_text(*p),
{
    let mut text: String = String::new();
    push_dec(&mut text, p.seq as u64);
    text.append(" / ");
    push_dec(&mut text, p.output as u64);
    assert(text@ =~= pulse_position_text(*p));
    text
}

/// The rows on a pulse channel, but for its pitch.
pub open spec fn pulse_rows_texts(p: PulseDebug) -> Seq<(Seq<char>, Seq<char>)> {
    seq![
        ("啟用（$4015）"@, pulse_enabled_text(p)),
        ("Duty"@, pulse_duty_text(p)),
        ("長度計數器"@, pulse_length_text(p)),
        ("音量／包絡線"@, pulse_volume_text(p)),
        ("Sweep"@, pulse_sweep_text(p)),
        ("序列位置／輸出"@, pulse_position_text(p)),
    ]
}

pub fn pulse_rows(p: &PulseDebug) -> (rows: Vec<DebugRow>)
    ensures
        row_texts(rows@) == pulse_rows_texts(*p),
{
    let mut rows: Vec<DebugRow> = Vec::new();
    push_row(&mut rows, "啟用（$4015）", pulse_enabled(p));
    push_row(&mut rows, "Duty", pulse_duty(p));
    push_row(&mut rows, "長度計數器", pulse_length(p));
    push_row(&mut rows, "音量／包絡線", pulse_volume(p));
    push_row(&mut rows, "Sweep", pulse_sweep(p));
    push_row(&mut rows, "序列位置／輸出", pulse_position(p));
    assert(row_texts(rows@) =~= pulse_rows_texts(*p));
    rows
}

/// Whether the channel is on.
pub open spec fn triangle_enabled_text(t: TriangleDebug) -> Seq<char> {
    yes_text(t.enabled)
}

fn triangle_enabled(t: &TriangleDebug) -> (text: String)
    ensures
        text@ == triangle_enabled_text(*t),
{
    let mut text: String = String::new();
    text.append(yes(t.enabled));
    assert(text@ =~= triangle_enabled_text(*t));
    text
}

/// The linear counter.
pub open spec fn triangle_linear_text(t: TriangleDebug) -> Seq<char> {
    dec(t.linear_counter as nat) + " / 重載值 "@ + dec(t.linear_reload as nat)
        + (if t.control { "（control）"@ } else { ""@ })
}

fn triangle_linear(t: &TriangleDebug) -> (text: String)
    ensures
        text@ == triangle_linear_text(*t),
{
    let mut text: String = String::new();
    push_dec(&mut text, t.linear_counter as u64);
    text.append(" / 重載值 ");
    push_dec(&mut text, t.linear_reload as u64);
    text.append(if t.control {
        "（control）"
    } else {
        ""
    });
    assert(text@ =~= triangle_linear_text(*t));
    text
}

/// The length counter.
pub open spec fn triangle_length_text(t: TriangleDebug) -> Seq<char> {
    dec(t.length as nat)
}

fn triangle_length(t: &TriangleDebug) -> (text: String)
    ensures
        text@ == triangle_length_text(*t),
{
    let mut text: String = String::new();
    push_dec(&mut text, t.length as u64);
    assert(text@ =~= triangle_length_text(*t));
    text
}

/// The position in the sequence, and the output.
pub open spec fn triangle_position_text(t: TriangleDebug) -> Seq<char> {
    dec(t.seq as nat) + " / "@ + dec(t.output as nat)
}

fn triangle_position(t: &TriangleDebug) -> (text: String)
    ensures
        text@ == triangle_position_text(*t),
{
    let mut text: String = String::new();
    push_dec(&mut text, t.seq as u64);
    text.append(" / ");
    push_dec(&mut text, t.output as u64);
    assert(text@ =~= triangle_position_text(*t));
    text
}

/// The rows on the triangle channel, but for its pitch.
pub open spec fn triangle_rows_texts(t: TriangleDebug) -> Seq<(Seq<char>, Seq<char>)> {
    seq![
        ("啟用（$4015）"@, triangle_enabled_text(t)),
        ("Linear counter"@, triangle_linear_text(t)),
        ("長度計數器"@, triangle_length_text(t)),
        ("序列位置／輸出"@, triangle_position_text(t)),
    ]
}

pub fn triangle_rows(t: &TriangleDebug) -> (rows: Vec<DebugRow>)
    ensures
        row_texts(rows@) == triangle_rows_texts(*t),
{
    let mut rows: Vec<DebugRow> = Vec::new();
    push_row(&mut rows, "啟用（$4015）", triangle_enabled(t));
    push_row(&mut rows, "Linear counter", triangle_linear(t));
    push_row(&mut rows, "長度計數器", triangle_length(t));
    push_row(&mut rows, "序列位置／輸出", triangle_position(t));
    assert(row_texts(rows@) =~= triangle_rows_texts(*t));
    rows
}

/// Whether the channel is on.
pub open spec fn noise_enabled_text(n: NoiseDebug) -> Seq<char> {
    yes_text(n.enabled)
}

fn noise_enabled(n: &NoiseDebug) -> (text: String)
    ensures
        text@ == noise_enabled_text(*n),
{
    let mut text: String = String::new();
    text.append(yes(n.enabled));
    assert(text@ =~= noise_enabled_text(*n));
    text
}

/// The length counter.
pub open spec fn noise_length_text(n: NoiseDebug) -> Seq<char> {
    dec(n.length as nat) + (if n.halt { "（halt）"@ } else { ""@ })
}

fn noise_length(n: &NoiseDebug) -> (text: String)
    ensures
        text@ == noise_length_text(*n),
{
    let mut text: String = String::new();
    push_dec(&mut text, n.length as u64);
    text.append(if n.halt {
        "（halt）"
    } else {
        ""
    });
    assert(text@ =~= noise_length_text(*n));
    text
}

/// The volume.
pub open spec fn noise_volume_text(n: NoiseDebug) -> Seq<char> {
    (if n.constant { "固定"@ } else { "包絡線"@ }) + " "@ + dec(n.volume as nat) + "（衰減 "@
        + dec(n.envelope as nat) + "）"@
}

fn noise_volume(n: &NoiseDebug) -> (text: String)
    ensures
        text@ == noise_volume_text(*n),
{
    let mut text: String = String::new();
    text.append(if n.constant {
        "固定"
    } else {
        "包絡線"
    });
    text.append(" ");
    push_dec(&mut text, n.volume as u64);
    text.append("（衰減 ");
    push_dec(&mut text, n.envelope as u64);
    text.append("）");
    assert(text@ =~= noise_volume_text(*n));
    text
}

/// The mode and the period.
pub open spec fn noise_mode_text(n: NoiseDebug) -> Seq<char> {
    (if n.mode { "短"@ } else { "長"@ }) + " / "@ + dec(n.period_index as nat)
}

fn noise_mode(n: &NoiseDebug) -> (text: String)
    ensures
        text@ == noise_mode_text(*n),
{
    let mut text: String = String::new();
    text.append(if n.mode {
        "短"
    } else {
        "長"
    });
    text.append(" / ");
    push_dec(&mut text, n.period_index as u64);
    assert(text@ =~= noise_mode_text(*n));
    text
}

/// The shift register, and the output.
pub open spec fn noise_position_text(n: NoiseDebug) -> Seq<char> {
    "$"@ + hex(n.shift as nat, 4) + " / "@ + dec(n.output as nat)
}

fn noise_position(n: &NoiseDebug) -> (text: String)
    ensures
        text@ == noise_position_text(*n),
{
    let mut text: String = "$".to_owned();
    push_hex(&mut text, n.shift as u64, 4);
    text.append(" / ");
    push_dec(&mut text, n.output as u64);
    assert(text@ =~= noise_position_text(*n));
    text
}

/// The rows on the noise channel.
pub open spec fn noise_rows_texts(n: NoiseDebug) -> Seq<(Seq<char>, Seq<char>)> {
    seq![
        ("啟用（$4015）"@, noise_enabled_text(n)),
        ("長度計數器"@, noise_length_text(n)),
        ("音量／包絡線"@, noise_volume_text(n)),
        ("模式／週期索引"@, noise_mode_text(n)),
        ("LFSR／輸出"@, noise_position_text(n)),
    ]
}

pub fn noise_rows(n: &NoiseDebug) -> (rows: Vec<DebugRow>)
    ensures
        row_texts(rows@) == noise_rows_texts(*n),
{
    let mut rows: Vec<DebugRow> = Vec::new();
    push_row(&mut rows, "啟用（$4015）", noise_enabled(n));
    push_row(&mut rows, "長度計數器", noise_length(n));
    push_row(&mut rows, "音量／包絡線", noise_volume(n));
    push_row(&mut rows, "模式／週期索引", noise_mode(n));
    push_row(&mut rows, "LFSR／輸出", noise_position(n));
    assert(row_texts(rows@) =~= noise_rows_texts(*n));
    rows
}

/// The control register.
pub open spec fn dmc_control_text(d: DmcDebug) -> Seq<char> {
    yes_text(d.irq_enabled) + " / "@ + yes_text(d.looping) + " / "@ + dec(d.rate_index as nat)
}

fn dmc_control(d: &DmcDebug) -> (text: String)
    ensures
        text@ == dmc_control_text(*d),
{
    let mut text: String = String::new();
    text.append(yes(d.irq_enabled));
    text.append(" / ");
    text.append(yes(d.looping));
    text.append(" / ");
    push_dec(&mut text, d.rate_index as u64);
    assert(text@ =~= dmc_control_text(*d));
    text
}

/// The sample.
pub open spec fn dmc_sample_text(d: DmcDebug) -> Seq<char> {
    "$"@ + hex(d.sample_addr as nat, 4) + " / "@ + dec(d.sample_length as nat)
}

fn dmc_sample(d: &DmcDebug) -> (text: String)
    ensures
        text@ == dmc_sample_text(*d),
{
    let mut text: String = "$".to_owned();
    push_hex(&mut text, d.sample_addr as u64, 4);
    text.append(" / ");
    push_dec(&mut text, d.sample_length as u64);
    assert(text@ =~= dmc_sample_text(*d));
    text
}

/// How far the sample was played.
pub open spec fn dmc_progress_text(d: DmcDebug) -> Seq<char> {
    "$"@ + hex(d.current_addr as nat, 4) + " / "@ + dec(d.bytes_remaining as nat)
}

fn dmc_progress(d: &DmcDebug) -> (text: String)
    ensures
        text@ == dmc_progress_text(*d),
{
    let mut text: String = "$".to_owned();
    push_hex(&mut text, d.current_addr as u64, 4);
    text.append(" / ");
    push_dec(&mut text, d.bytes_remaining as u64);
    assert(text@ =~= dmc_progress_text(*d));
    text
}

/// The output.
pub open spec fn dmc_level_text(d: DmcDebug) -> Seq<char> {
    dec(d.output_level as nat)
}

fn dmc_level(d: &DmcDebug) -> (text: String)
    ensures
        text@ == dmc_level_text(*d),
{
    let mut text: String = String::new();
    push_dec(&mut text, d.output_level as u64);
    assert(text@ =~= dmc_level_text(*d));
    text
}

/// The rows on the DMC.
pub open spec fn dmc_rows_texts(d: DmcDebug) -> Seq<(Seq<char>, Seq<char>)> {
    seq![
        ("IRQ 致能／loop／速率"@, dmc_control_text(d)),
        ("取樣位址／長度"@, dmc_sample_text(d)),
        ("目前位址／剩餘 byte"@, dmc_progress_text(d)),
        ("輸出電平"@, dmc_level_text(d)),
    ]
}

pub fn dmc_rows(d: &DmcDebug) -> (rows: Vec<DebugRow>)
    ensures
        row_texts(rows@) == dmc_rows_texts(*d),
{
    let mut rows: Vec<DebugRow> = Vec::new();
    push_row(&mut rows, "IRQ 致能／loop／速率", dmc_control(d));
    push_row(&mut rows, "取樣位址／長度", dmc_sample(d));
    push_row(&mut rows, "目前位址／剩餘 byte", dmc_progress(d));
    push_row(&mut rows, "輸出電平", dmc_level(d));
    assert(row_texts(rows@) =~= dmc_rows_texts(*d));
    rows
}

/// The name of a palette: four for the background, four for sprites.
pub open spec fn palette_text(group: nat) -> Seq<char> {
    if group < 4 { "BG"@ + dec(group) } else { "SP"@ + dec((group - 4) as nat) }
}

pub fn palette_name(group: u8) -> (text: String)
    ensures
        text@ == palette_text(group as nat),
{
    if group < 4 {
        let mut text: String = "BG".to_owned();
        push_dec(&mut text, group as u64);
        text
    } else {
        let mut text: String = "SP".to_owned();
        push_dec(&mut text, (group - 4) as u64);
        text
    }
}

/// What palette memory holds at place `i` of a palette.
pub open spec fn palette_value(snap: DebugSnapshot, group: nat, i: nat) -> u8 {
    snap.palette_ram@[seen_index(group * 4 + i) as int]
}

pub fn palette_entry(snap: &DebugSnapshot, group: u8, i: u8) -> (value: u8)
    requires
        group < 8,
        i < 4,
    ensures
        value == palette_value(*snap, group as nat, i as nat),
{
    snap.palette_ram[palette_index(group as usize * 4 + i as usize)]
}

/// The colour at place `i` of a palette.
pub fn palette_color(snap: &DebugSnapshot, group: u8, i: u8) -> (rgb: [u8; 3])
    requires
        group < 8,
        i < 4,
    ensures
        rgb@ == SYSTEM_PALETTE@[palette_value(*snap, group as nat, i as nat) as int % 64]@,
{
    SYSTEM_PALETTE[palette_entry(snap, group, i) as usize % 64]
}

/// The bytes of a palette.
pub open spec fn palette_bytes_text(snap: DebugSnapshot, group: nat) -> Seq<char> {
    hex(palette_value(snap, group, 0) as nat, 2) + " "@ + hex(
        palette_value(snap, group, 1) as nat,
        2,
    ) + " "@ + hex(palette_value(snap, group, 2) as nat, 2) + " "@ + hex(
        palette_value(snap, group, 3) as nat,
        2,
    )
}

pub fn palette_bytes(snap: &DebugSnapshot, group: u8) -> (text: String)
    requires
        group < 8,
    ensures
        text@ == palette_bytes_text(*snap, group as nat),
{
    let mut text: String = String::new();
    push_hex(&mut text, palette_entry(snap, group, 0) as u64, 2);
    text.append(" ");
    push_hex(&mut text, palette_entry(snap, group, 1) as u64, 2);
    text.append(" ");
    push_hex(&mut text, palette_entry(snap, group, 2) as u64, 2);
    text.append(" ");
    push_hex(&mut text, palette_entry(snap, group, 3) as u64, 2);
    assert(text@ =~= palette_bytes_text(*snap, group as nat));
    text
}

/// The cells on one sprite: its number, then its four bytes.
pub open spec fn sprite_texts(snap: DebugSnapshot, n: nat) -> Seq<Seq<char>> {
    seq![
        seq![crate::text::digit_char(n / 10), crate::text::digit_char(n % 10)],
        hex(snap.oam@[n as int * 4] as nat, 2),
        hex(snap.oam@[n as int * 4 + 1] as nat, 2),
        hex(snap.oam@[n as int * 4 + 2] as nat, 2),
        hex(snap.oam@[n as int * 4 + 3] as nat, 2),
    ]
}

fn hex2(v: u8) -> (text: String)
    ensures
        text@ == hex(v as nat, 2),
{
    let mut text: String = String::new();
    push_hex(&mut text, v as u64, 2);
    assert(text@ =~= hex(v as nat, 2));
    text
}

/// The cells on one sprite.
pub fn sprite_cells(snap: &DebugSnapshot, n: usize) -> (cells: Vec<String>)
    requires
        n < 64,
        n * 4 + 4 <= snap.oam@.len(),
    ensures
        line_texts(cells@) == sprite_texts(*snap, n as nat),
{
    let mut cells: Vec<String> = Vec::new();
    let mut number: String = String::new();
    push_dec(&mut number, (n / 10) as u64);
    push_dec(&mut number, (n % 10) as u64);
    assert(number@ =~= sprite_texts(*snap, n as nat)[0]);
    push_line(&mut cells, number);
    push_line(&mut cells, hex2(snap.oam[n * 4]));
    push_line(&mut cells, hex2(snap.oam[n * 4 + 1]));
    push_line(&mut cells, hex2(snap.oam[n * 4 + 2]));
    push_line(&mut cells, hex2(snap.oam[n * 4 + 3]));
    assert(line_texts(cells@) =~= sprite_texts(*snap, n as nat));
    cells
}

/// The heading of the mapper panel.
pub open spec fn mapper_heading_text(snap: DebugSnapshot) -> Seq<char> {
    snap.mapper_name@ + "（mapper "@ + dec(snap.mapper_id as nat) + "）"@
}

pub fn mapper_heading(snap: &DebugSnapshot) -> (text: String)
    ensures
        text@ == mapper_heading_text(*snap),
{
    let mut text: String = String::new();
    text.append(snap.mapper_name.as_str());
    text.append("（mapper ");
    push_dec(&mut text, snap.mapper_id as u64);
    text.append("）");
    assert(text@ =~= mapper_heading_text(*snap));
    text
}

/// The channels that are heard after one was switched.
pub fn switched_channel(mask: u8, channel: u8, audible: bool) -> (now: u8)
    ensures
        now == if audible { mask | channel } else { mask & !channel },
{
    if audible {
        mask | channel
    } else {
        mask & !channel
    }
}

} // verus!

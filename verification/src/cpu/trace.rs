//! Showing the instruction at the program counter. Nothing here changes the machine: memory is
//! looked at, not read.

use vstd::prelude::*;
use vstd::string::*;

use super::opcodes::{decoded, opcode_info, AddrMode, Mnemonic, OpcodeInfo};
use super::{displace, displaced, next_in_page, next_in_page_of, word, word_of, Cpu, CpuModel};
use crate::text::{
    dec, dec_text, hex, left_aligned, push_dec, push_hex, push_left, push_right, right_aligned,
};

verus! {

impl CpuModel {
    /// The byte `n` places behind the program counter.
    pub open spec fn code_byte(self, n: u16) -> u8 {
        self.bus.peeked(self.pc.wrapping_add(n))
    }

    /// The value that is shown for an operand's address. The APU's registers are shown as `FF`.
    pub open spec fn shown_value(self, addr: u16) -> u8 {
        if 0x4000 <= addr <= 0x4015 { 0xFF } else { self.bus.peeked(addr) }
    }

    /// The address at two bytes of the zero page.
    pub open spec fn shown_pointer(self, ptr: u8) -> u16 {
        word(self.bus.peeked(ptr as u16), self.bus.peeked(ptr.wrapping_add(1) as u16))
    }

    /// The operand as text, with the address it leads to and the value there.
    pub open spec fn operand_text(self, info: OpcodeInfo) -> Seq<char> {
        let b = self.code_byte(1);
        let w = word(self.code_byte(1), self.code_byte(2));
        match info.mode {
            AddrMode::Implied => Seq::empty(),
            AddrMode::Accumulator => "A"@,
            AddrMode::Immediate => "#$"@ + hex(b as nat, 2),
            AddrMode::ZeroPage => "$"@ + hex(b as nat, 2) + " = "@ + hex(
                self.bus.peeked(b as u16) as nat,
                2,
            ),
            AddrMode::ZeroPageX => self.zero_page_text(b, self.x, ",X @ "@),
            AddrMode::ZeroPageY => self.zero_page_text(b, self.y, ",Y @ "@),
            AddrMode::Absolute => if info.mnemonic == Mnemonic::Jmp || info.mnemonic
                == Mnemonic::Jsr {
                "$"@ + hex(w as nat, 4)
            } else {
                "$"@ + hex(w as nat, 4) + " = "@ + hex(self.shown_value(w) as nat, 2)
            },
            AddrMode::AbsoluteX => self.indexed_text(w, self.x, ",X @ "@),
            AddrMode::AbsoluteY => self.indexed_text(w, self.y, ",Y @ "@),
            AddrMode::Indirect => "($"@ + hex(w as nat, 4) + ") = "@ + hex(
                word(self.bus.peeked(w), self.bus.peeked(next_in_page(w))) as nat,
                4,
            ),
            AddrMode::IndirectX => {
                let ptr = b.wrapping_add(self.x);
                let addr = self.shown_pointer(ptr);
                "($"@ + hex(b as nat, 2) + ",X) @ "@ + hex(ptr as nat, 2) + " = "@ + hex(
                    addr as nat,
                    4,
                ) + " = "@ + hex(self.shown_value(addr) as nat, 2)
            },
            AddrMode::IndirectY => {
                let ptr = self.shown_pointer(b);
                let addr = ptr.wrapping_add(self.y as u16);
                "($"@ + hex(b as nat, 2) + "),Y = "@ + hex(ptr as nat, 4) + " @ "@ + hex(
                    addr as nat,
                    4,
                ) + " = "@ + hex(self.shown_value(addr) as nat, 2)
            },
            AddrMode::Relative => "$"@ + hex(
                displaced(self.pc.wrapping_add(info.bytes as u16), b) as nat,
                4,
            ),
        }
    }

    pub open spec fn zero_page_text(self, base: u8, index: u8, mark: Seq<char>) -> Seq<char> {
        let addr = base.wrapping_add(index);
        "$"@ + hex(base as nat, 2) + mark + hex(addr as nat, 2) + " = "@ + hex(
            self.bus.peeked(addr as u16) as nat,
            2,
        )
    }

    pub open spec fn indexed_text(self, base: u16, index: u8, mark: Seq<char>) -> Seq<char> {
        let addr = base.wrapping_add(index as u16);
        "$"@ + hex(base as nat, 4) + mark + hex(addr as nat, 4) + " = "@ + hex(
            self.shown_value(addr) as nat,
            2,
        )
    }

    /// The instruction at the program counter as text. A star marks an undocumented one.
    pub open spec fn disassembled(self) -> Seq<char> {
        let info = decoded(self.code_byte(0));
        let name = (if info.official { ""@ } else { "*"@ }) + info.mnemonic.name();
        if info.mode == AddrMode::Implied {
            name
        } else {
            name + " "@ + self.operand_text(info)
        }
    }

    /// The bytes of the instruction.
    pub open spec fn code_text(self) -> Seq<char> {
        let info = decoded(self.code_byte(0));
        let first = hex(self.code_byte(0) as nat, 2);
        let second = first + " "@ + hex(self.code_byte(1) as nat, 2);
        if info.bytes == 1 {
            first
        } else if info.bytes == 2 {
            second
        } else {
            second + " "@ + hex(self.code_byte(2) as nat, 2)
        }
    }

    /// One line on the instruction and the registers before it.
    pub open spec fn traced(self) -> Seq<char> {
        hex(self.pc as nat, 4) + "  "@ + left_aligned(self.code_text(), 9) + " "@ + left_aligned(
            self.disassembled(),
            32,
        ) + "A:"@ + hex(self.a as nat, 2) + " X:"@ + hex(self.x as nat, 2) + " Y:"@ + hex(
            self.y as nat,
            2,
        ) + " P:"@ + hex(self.status.raw as nat, 2) + " SP:"@ + hex(self.sp as nat, 2) + " PPU:"@
            + right_aligned(dec(self.bus.ppu().scanline as nat), 3) + ","@ + right_aligned(
            dec(self.bus.ppu().cycle as nat),
            3,
        ) + " CYC:"@ + dec(self.bus.total_cycles as nat)
    }
}

impl Cpu {
    fn trace_value(&self, addr: u16) -> (value: u8)
        requires
            self@.bus.wf(),
        ensures
            value == self@.shown_value(addr),
    {
        if 0x4000 <= addr && addr <= 0x4015 {
            0xFF
        } else {
            self.bus.peek(addr)
        }
    }

    fn peek_code(&self, n: u16) -> (byte: u8)
        requires
            self@.bus.wf(),
        ensures
            byte == self@.code_byte(n),
    {
        self.bus.peek(self.pc.wrapping_add(n))
    }

    fn peek_pointer(&self, ptr: u8) -> (addr: u16)
        requires
            self@.bus.wf(),
        ensures
            addr == self@.shown_pointer(ptr),
    {
        word_of(self.bus.peek(ptr as u16), self.bus.peek(ptr.wrapping_add(1) as u16))
    }

    fn zero_page_operand(&self, base: u8, index: u8, mark: &str) -> (text: String)
        requires
            self@.bus.wf(),
        ensures
            text@ == self@.zero_page_text(base, index, mark@),
    {
        let addr: u8 = base.wrapping_add(index);
        let mut text: String = "$".to_owned();
        push_hex(&mut text, base as u64, 2);
        text.append(mark);
        push_hex(&mut text, addr as u64, 2);
        text.append(" = ");
        push_hex(&mut text, self.bus.peek(addr as u16) as u64, 2);
        text
    }

    fn indexed_operand_text(&self, base: u16, index: u8, mark: &str) -> (text: String)
        requires
            self@.bus.wf(),
        ensures
            text@ == self@.indexed_text(base, index, mark@),
    {
        let addr: u16 = base.wrapping_add(index as u16);
        let mut text: String = "$".to_owned();
        push_hex(&mut text, base as u64, 4);
        text.append(mark);
        push_hex(&mut text, addr as u64, 4);
        text.append(" = ");
        push_hex(&mut text, self.trace_value(addr) as u64, 2);
        text
    }

    fn operand(&self, info: OpcodeInfo) -> (text: String)
        requires
            self@.bus.wf(),
        ensures
            text@ == self@.operand_text(info),
    {
        let b: u8 = self.peek_code(1);
        let w: u16 = word_of(b, self.peek_code(2));
        match info.mode {
            AddrMode::Implied => {
                let text: String = String::new();
                assert(text@ =~= Seq::<char>::empty());
                text
            },
            AddrMode::Accumulator => "A".to_owned(),
            AddrMode::Immediate => {
                let mut text: String = "#$".to_owned();
                push_hex(&mut text, b as u64, 2);
                text
            },
            AddrMode::ZeroPage => {
                let mut text: String = "$".to_owned();
                push_hex(&mut text, b as u64, 2);
                text.append(" = ");
                push_hex(&mut text, self.bus.peek(b as u16) as u64, 2);
                text
            },
            AddrMode::ZeroPageX => self.zero_page_operand(b, self.x, ",X @ "),
            AddrMode::ZeroPageY => self.zero_page_operand(b, self.y, ",Y @ "),
            AddrMode::Absolute => {
                let mut text: String = "$".to_owned();
                push_hex(&mut text, w as u64, 4);
                if info.mnemonic != Mnemonic::Jmp && info.mnemonic != Mnemonic::Jsr {
                    text.append(" = ");
                    push_hex(&mut text, self.trace_value(w) as u64, 2);
                }
                text
            },
            AddrMode::AbsoluteX => self.indexed_operand_text(w, self.x, ",X @ "),
            AddrMode::AbsoluteY => self.indexed_operand_text(w, self.y, ",Y @ "),
            AddrMode::Indirect => {
                let target: u16 = word_of(self.bus.peek(w), self.bus.peek(next_in_page_of(w)));
                let mut text: String = "($".to_owned();
                push_hex(&mut text, w as u64, 4);
                text.append(") = ");
                push_hex(&mut text, target as u64, 4);
                text
            },
            AddrMode::IndirectX => {
                let ptr: u8 = b.wrapping_add(self.x);
                let addr: u16 = self.peek_pointer(ptr);
                let mut text: String = "($".to_owned();
                push_hex(&mut text, b as u64, 2);
                text.append(",X) @ ");
                push_hex(&mut text, ptr as u64, 2);
                text.append(" = ");
                push_hex(&mut text, addr as u64, 4);
                text.append(" = ");
                push_hex(&mut text, self.trace_value(addr) as u64, 2);
                text
            },
            AddrMode::IndirectY => {
                let ptr: u16 = self.peek_pointer(b);
                let addr: u16 = ptr.wrapping_add(self.y as u16);
                let mut text: String = "($".to_owned();
                push_hex(&mut text, b as u64, 2);
                text.append("),Y = ");
                push_hex(&mut text, ptr as u64, 4);
                text.append(" @ ");
                push_hex(&mut text, addr as u64, 4);
                text.append(" = ");
                push_hex(&mut text, self.trace_value(addr) as u64, 2);
                text
            },
            AddrMode::Relative => {
                let target: u16 = displace(self.pc.wrapping_add(info.bytes as u16), b);
                let mut text: String = "$".to_owned();
                push_hex(&mut text, target as u64, 4);
                text
            },
        }
    }

    /// The instruction at the program counter as text: its name and operand.
    pub fn current_disassembly(&self) -> (text: String)
        requires
            self@.bus.wf(),
        ensures
            text@ == self@.disassembled(),
    {
        let info: OpcodeInfo = opcode_info(self.peek_code(0));
        self.disassemble(info)
    }

    fn disassemble(&self, info: OpcodeInfo) -> (text: String)
        requires
            self@.bus.wf(),
            info == decoded(self@.code_byte(0)),
        ensures
            text@ == self@.disassembled(),
    {
        let mut text: String = if info.official {
            "".to_owned()
        } else {
            "*".to_owned()
        };
        text.append(info.mnemonic.as_str());
        if info.mode != AddrMode::Implied {
            let operand: String = self.operand(info);
            text.append(" ");
            text.append(operand.as_str());
        }
        text
    }

    fn code_bytes(&self, info: OpcodeInfo) -> (text: String)
        requires
            self@.bus.wf(),
            info == decoded(self@.code_byte(0)),
            1 <= info.bytes <= 3,
        ensures
            text@ == self@.code_text(),
    {
        let mut text: String = String::new();
        push_hex(&mut text, self.peek_code(0) as u64, 2);
        assert(text@ =~= hex(self@.code_byte(0) as nat, 2));
        if info.bytes > 1 {
            text.append(" ");
            push_hex(&mut text, self.peek_code(1) as u64, 2);
        }
        if info.bytes > 2 {
            text.append(" ");
            push_hex(&mut text, self.peek_code(2) as u64, 2);
        }
        text
    }

    /// One line on the instruction at the program counter and the registers before it, in the
    /// format of the nestest log.
    pub fn trace(&self) -> (line: String)
        requires
            self@.bus.wf(),
        ensures
            line@ == self@.traced(),
    {
        let opcode: u8 = self.peek_code(0);
        let info: OpcodeInfo = opcode_info(opcode);
        proof {
            super::opcodes::law_opcode_sizes(opcode);
        }
        let bytes: String = self.code_bytes(info);
        let disasm: String = self.disassemble(info);
        let (scanline, cycle): (u16, u16) = self.bus.ppu_dot();
        let scanline_text: String = dec_text(scanline as u64);
        let cycle_text: String = dec_text(cycle as u64);
        let mut line: String = String::new();
        push_hex(&mut line, self.pc as u64, 4);
        assert(line@ =~= hex(self@.pc as nat, 4));
        line.append("  ");
        push_left(&mut line, bytes.as_str(), 9);
        line.append(" ");
        push_left(&mut line, disasm.as_str(), 32);
        line.append("A:");
        push_hex(&mut line, self.a as u64, 2);
        line.append(" X:");
        push_hex(&mut line, self.x as u64, 2);
        line.append(" Y:");
        push_hex(&mut line, self.y as u64, 2);
        line.append(" P:");
        push_hex(&mut line, self.status.bits() as u64, 2);
        line.append(" SP:");
        push_hex(&mut line, self.sp as u64, 2);
        line.append(" PPU:");
        push_right(&mut line, scanline_text.as_str(), 3);
        line.append(",");
        push_right(&mut line, cycle_text.as_str(), 3);
        line.append(" CYC:");
        push_dec(&mut line, self.bus.total_cycles());
        line
    }
}

} // verus!

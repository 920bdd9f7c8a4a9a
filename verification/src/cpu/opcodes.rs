//! What each of the 256 opcodes is: its operation, how its operand is found, its length and its
//! time.

use vstd::prelude::*;

verus! {

/// How an instruction finds its operand.
#[derive(Debug, Clone, Copy, PartialEq, Eq, Structural)]
pub enum AddrMode {
    Implied,
    Accumulator,
    Immediate,
    ZeroPage,
    ZeroPageX,
    ZeroPageY,
    Absolute,
    AbsoluteX,
    AbsoluteY,
    Indirect,
    IndirectX,
    IndirectY,
    Relative,
}

/// What an instruction does. Opcodes that differ only in how they find their operand share one.
#[derive(Debug, Clone, Copy, PartialEq, Eq, Structural)]
pub enum Mnemonic {
    // Loads and stores
    Lda,
    Ldx,
    Ldy,
    Sta,
    Stx,
    Sty,
    // Transfers
    Tax,
    Tay,
    Txa,
    Tya,
    Tsx,
    Txs,
    // Stack
    Pha,
    Php,
    Pla,
    Plp,
    // Arithmetic
    Adc,
    Sbc,
    Inc,
    Dec,
    Inx,
    Iny,
    Dex,
    Dey,
    // Shifts
    Asl,
    Lsr,
    Rol,
    Ror,
    // Logic
    And,
    Ora,
    Eor,
    Bit,
    // Comparisons
    Cmp,
    Cpx,
    Cpy,
    // Branches
    Bcc,
    Bcs,
    Beq,
    Bne,
    Bmi,
    Bpl,
    Bvc,
    Bvs,
    // Jumps
    Jmp,
    Jsr,
    Rts,
    Rti,
    Brk,
    // Flags
    Clc,
    Sec,
    Cli,
    Sei,
    Clv,
    Cld,
    Sed,
    // Nothing
    Nop,
    // Undocumented
    Lax,
    Sax,
    Dcp,
    Isb,
    Slo,
    Rla,
    Sre,
    Rra,
    Anc,
    Alr,
    Arr,
    Axs,
    Shy,
    Shx,
    Lxa,
    Jam,
}

impl Mnemonic {
    /// The name that a disassembly shows.
    pub open spec fn name(self) -> Seq<char> {
        match self {
            Mnemonic::Lda => "LDA"@,
            Mnemonic::Ldx => "LDX"@,
            Mnemonic::Ldy => "LDY"@,
            Mnemonic::Sta => "STA"@,
            Mnemonic::Stx => "STX"@,
            Mnemonic::Sty => "STY"@,
            Mnemonic::Tax => "TAX"@,
            Mnemonic::Tay => "TAY"@,
            Mnemonic::Txa => "TXA"@,
            Mnemonic::Tya => "TYA"@,
            Mnemonic::Tsx => "TSX"@,
            Mnemonic::Txs => "TXS"@,
            Mnemonic::Pha => "PHA"@,
            Mnemonic::Php => "PHP"@,
            Mnemonic::Pla => "PLA"@,
            Mnemonic::Plp => "PLP"@,
            Mnemonic::Adc => "ADC"@,
            Mnemonic::Sbc => "SBC"@,
            Mnemonic::Inc => "INC"@,
            Mnemonic::Dec => "DEC"@,
            Mnemonic::Inx => "INX"@,
            Mnemonic::Iny => "INY"@,
            Mnemonic::Dex => "DEX"@,
            Mnemonic::Dey => "DEY"@,
            Mnemonic::Asl => "ASL"@,
            Mnemonic::Lsr => "LSR"@,
            Mnemonic::Rol => "ROL"@,
            Mnemonic::Ror => "ROR"@,
            Mnemonic::And => "AND"@,
            Mnemonic::Ora => "ORA"@,
            Mnemonic::Eor => "EOR"@,
            Mnemonic::Bit => "BIT"@,
            Mnemonic::Cmp => "CMP"@,
            Mnemonic::Cpx => "CPX"@,
            Mnemonic::Cpy => "CPY"@,
            Mnemonic::Bcc => "BCC"@,
            Mnemonic::Bcs => "BCS"@,
            Mnemonic::Beq => "BEQ"@,
            Mnemonic::Bne => "BNE"@,
            Mnemonic::Bmi => "BMI"@,
            Mnemonic::Bpl => "BPL"@,
            Mnemonic::Bvc => "BVC"@,
            Mnemonic::Bvs => "BVS"@,
            Mnemonic::Jmp => "JMP"@,
            Mnemonic::Jsr => "JSR"@,
            Mnemonic::Rts => "RTS"@,
            Mnemonic::Rti => "RTI"@,
            Mnemonic::Brk => "BRK"@,
            Mnemonic::Clc => "CLC"@,
            Mnemonic::Sec => "SEC"@,
            Mnemonic::Cli => "CLI"@,
            Mnemonic::Sei => "SEI"@,
            Mnemonic::Clv => "CLV"@,
            Mnemonic::Cld => "CLD"@,
            Mnemonic::Sed => "SED"@,
            Mnemonic::Nop => "NOP"@,
            Mnemonic::Lax => "LAX"@,
            Mnemonic::Sax => "SAX"@,
            Mnemonic::Dcp => "DCP"@,
            Mnemonic::Isb => "ISB"@,
            Mnemonic::Slo => "SLO"@,
            Mnemonic::Rla => "RLA"@,
            Mnemonic::Sre => "SRE"@,
            Mnemonic::Rra => "RRA"@,
            Mnemonic::Anc => "ANC"@,
            Mnemonic::Alr => "ALR"@,
            Mnemonic::Arr => "ARR"@,
            Mnemonic::Axs => "AXS"@,
            Mnemonic::Shy => "SHY"@,
            Mnemonic::Shx => "SHX"@,
            Mnemonic::Lxa => "LXA"@,
            Mnemonic::Jam => "JAM"@,
        }
    }

    pub fn as_str(self) -> (name: &'static str)
        ensures
            name@ == self.name(),
    {
        match self {
            Mnemonic::Lda => "LDA",
            Mnemonic::Ldx => "LDX",
            Mnemonic::Ldy => "LDY",
            Mnemonic::Sta => "STA",
            Mnemonic::Stx => "STX",
            Mnemonic::Sty => "STY",
            Mnemonic::Tax => "TAX",
            Mnemonic::Tay => "TAY",
            Mnemonic::Txa => "TXA",
            Mnemonic::Tya => "TYA",
            Mnemonic::Tsx => "TSX",
            Mnemonic::Txs => "TXS",
            Mnemonic::Pha => "PHA",
            Mnemonic::Php => "PHP",
            Mnemonic::Pla => "PLA",
            Mnemonic::Plp => "PLP",
            Mnemonic::Adc => "ADC",
            Mnemonic::Sbc => "SBC",
            Mnemonic::Inc => "INC",
            Mnemonic::Dec => "DEC",
            Mnemonic::Inx => "INX",
            Mnemonic::Iny => "INY",
            Mnemonic::Dex => "DEX",
            Mnemonic::Dey => "DEY",
            Mnemonic::Asl => "ASL",
            Mnemonic::Lsr => "LSR",
            Mnemonic::Rol => "ROL",
            Mnemonic::Ror => "ROR",
            Mnemonic::And => "AND",
            Mnemonic::Ora => "ORA",
            Mnemonic::Eor => "EOR",
            Mnemonic::Bit => "BIT",
            Mnemonic::Cmp => "CMP",
            Mnemonic::Cpx => "CPX",
            Mnemonic::Cpy => "CPY",
            Mnemonic::Bcc => "BCC",
            Mnemonic::Bcs => "BCS",
            Mnemonic::Beq => "BEQ",
            Mnemonic::Bne => "BNE",
            Mnemonic::Bmi => "BMI",
            Mnemonic::Bpl => "BPL",
            Mnemonic::Bvc => "BVC",
            Mnemonic::Bvs => "BVS",
            Mnemonic::Jmp => "JMP",
            Mnemonic::Jsr => "JSR",
            Mnemonic::Rts => "RTS",
            Mnemonic::Rti => "RTI",
            Mnemonic::Brk => "BRK",
            Mnemonic::Clc => "CLC",
            Mnemonic::Sec => "SEC",
            Mnemonic::Cli => "CLI",
            Mnemonic::Sei => "SEI",
            Mnemonic::Clv => "CLV",
            Mnemonic::Cld => "CLD",
            Mnemonic::Sed => "SED",
            Mnemonic::Nop => "NOP",
            Mnemonic::Lax => "LAX",
            Mnemonic::Sax => "SAX",
            Mnemonic::Dcp => "DCP",
            Mnemonic::Isb => "ISB",
            Mnemonic::Slo => "SLO",
            Mnemonic::Rla => "RLA",
            Mnemonic::Sre => "SRE",
            Mnemonic::Rra => "RRA",
            Mnemonic::Anc => "ANC",
            Mnemonic::Alr => "ALR",
            Mnemonic::Arr => "ARR",
            Mnemonic::Axs => "AXS",
            Mnemonic::Shy => "SHY",
            Mnemonic::Shx => "SHX",
            Mnemonic::Lxa => "LXA",
            Mnemonic::Jam => "JAM",
        }
    }
}

/// An opcode.
#[derive(Debug, Clone, Copy, PartialEq, Eq, Structural)]
pub struct OpcodeInfo {
    pub mnemonic: Mnemonic,
    pub mode: AddrMode,
    /// The length of the instruction.
    pub bytes: u8,
    /// Its time, where no page is crossed and no branch is taken.
    pub cycles: u8,
    /// Crossing a page costs a cycle. True of instructions that only read; those that write
    /// always take the time.
    pub page_cross_penalty: bool,
    /// Documented by the manufacturer.
    pub official: bool,
}

pub fn op(
    mnemonic: Mnemonic,
    mode: AddrMode,
    bytes: u8,
    cycles: u8,
    page_cross_penalty: bool,
    official: bool,
) -> (info: OpcodeInfo)
    ensures
        info == (OpcodeInfo { mnemonic, mode, bytes, cycles, page_cross_penalty, official }),
{
    OpcodeInfo { mnemonic, mode, bytes, cycles, page_cross_penalty, official }
}

/// The opcodes in order: operation, addressing, length, cycles, whether crossing a page costs a
/// cycle, whether it is documented. Opcodes without a known behaviour are instructions of two
/// cycles that do nothing.
pub const OPCODES: [(Mnemonic, AddrMode, u8, u8, bool, bool); 256] = [
    // $00
    (Mnemonic::Brk, AddrMode::Implied, 1, 7, false, true),
    (Mnemonic::Ora, AddrMode::IndirectX, 2, 6, false, true),
    (Mnemonic::Jam, AddrMode::Implied, 1, 2, false, false),
    (Mnemonic::Slo, AddrMode::IndirectX, 2, 8, false, false),
    (Mnemonic::Nop, AddrMode::ZeroPage, 2, 3, false, false),
    (Mnemonic::Ora, AddrMode::ZeroPage, 2, 3, false, true),
    (Mnemonic::Asl, AddrMode::ZeroPage, 2, 5, false, true),
    (Mnemonic::Slo, AddrMode::ZeroPage, 2, 5, false, false),
    (Mnemonic::Php, AddrMode::Implied, 1, 3, false, true),
    (Mnemonic::Ora, AddrMode::Immediate, 2, 2, false, true),
    (Mnemonic::Asl, AddrMode::Accumulator, 1, 2, false, true),
    (Mnemonic::Anc, AddrMode::Immediate, 2, 2, false, false),
    (Mnemonic::Nop, AddrMode::Absolute, 3, 4, false, false),
    (Mnemonic::Ora, AddrMode::Absolute, 3, 4, false, true),
    (Mnemonic::Asl, AddrMode::Absolute, 3, 6, false, true),
    (Mnemonic::Slo, AddrMode::Absolute, 3, 6, false, false),
    // $10
    (Mnemonic::Bpl, AddrMode::Relative, 2, 2, false, true),
    (Mnemonic::Ora, AddrMode::IndirectY, 2, 5, true, true),
    (Mnemonic::Jam, AddrMode::Implied, 1, 2, false, false),
    (Mnemonic::Slo, AddrMode::IndirectY, 2, 8, false, false),
    (Mnemonic::Nop, AddrMode::ZeroPageX, 2, 4, false, false),
    (Mnemonic::Ora, AddrMode::ZeroPageX, 2, 4, false, true),
    (Mnemonic::Asl, AddrMode::ZeroPageX, 2, 6, false, true),
    (Mnemonic::Slo, AddrMode::ZeroPageX, 2, 6, false, false),
    (Mnemonic::Clc, AddrMode::Implied, 1, 2, false, true),
    (Mnemonic::Ora, AddrMode::AbsoluteY, 3, 4, true, true),
    (Mnemonic::Nop, AddrMode::Implied, 1, 2, false, false),
    (Mnemonic::Slo, AddrMode::AbsoluteY, 3, 7, false, false),
    (Mnemonic::Nop, AddrMode::AbsoluteX, 3, 4, true, false),
    (Mnemonic::Ora, AddrMode::AbsoluteX, 3, 4, true, true),
    (Mnemonic::Asl, AddrMode::AbsoluteX, 3, 7, false, true),
    (Mnemonic::Slo, AddrMode::AbsoluteX, 3, 7, false, false),
    // $20
    (Mnemonic::Jsr, AddrMode::Absolute, 3, 6, false, true),
    (Mnemonic::And, AddrMode::IndirectX, 2, 6, false, true),
    (Mnemonic::Jam, AddrMode::Implied, 1, 2, false, false),
    (Mnemonic::Rla, AddrMode::IndirectX, 2, 8, false, false),
    (Mnemonic::Bit, AddrMode::ZeroPage, 2, 3, false, true),
    (Mnemonic::And, AddrMode::ZeroPage, 2, 3, false, true),
    (Mnemonic::Rol, AddrMode::ZeroPage, 2, 5, false, true),
    (Mnemonic::Rla, AddrMode::ZeroPage, 2, 5, false, false),
    (Mnemonic::Plp, AddrMode::Implied, 1, 4, false, true),
    (Mnemonic::And, AddrMode::Immediate, 2, 2, false, true),
    (Mnemonic::Rol, AddrMode::Accumulator, 1, 2, false, true),
    (Mnemonic::Anc, AddrMode::Immediate, 2, 2, false, false),
    (Mnemonic::Bit, AddrMode::Absolute, 3, 4, false, true),
    (Mnemonic::And, AddrMode::Absolute, 3, 4, false, true),
    (Mnemonic::Rol, AddrMode::Absolute, 3, 6, false, true),
    (Mnemonic::Rla, AddrMode::Absolute, 3, 6, false, false),
    // $30
    (Mnemonic::Bmi, AddrMode::Relative, 2, 2, false, true),
    (Mnemonic::And, AddrMode::IndirectY, 2, 5, true, true),
    (Mnemonic::Jam, AddrMode::Implied, 1, 2, false, false),
    (Mnemonic::Rla, AddrMode::IndirectY, 2, 8, false, false),
    (Mnemonic::Nop, AddrMode::ZeroPageX, 2, 4, false, false),
    (Mnemonic::And, AddrMode::ZeroPageX, 2, 4, false, true),
    (Mnemonic::Rol, AddrMode::ZeroPageX, 2, 6, false, true),
    (Mnemonic::Rla, AddrMode::ZeroPageX, 2, 6, false, false),
    (Mnemonic::Sec, AddrMode::Implied, 1, 2, false, true),
    (Mnemonic::And, AddrMode::AbsoluteY, 3, 4, true, true),
    (Mnemonic::Nop, AddrMode::Implied, 1, 2, false, false),
    (Mnemonic::Rla, AddrMode::AbsoluteY, 3, 7, false, false),
    (Mnemonic::Nop, AddrMode::AbsoluteX, 3, 4, true, false),
    (Mnemonic::And, AddrMode::AbsoluteX, 3, 4, true, true),
    (Mnemonic::Rol, AddrMode::AbsoluteX, 3, 7, false, true),
    (Mnemonic::Rla, AddrMode::AbsoluteX, 3, 7, false, false),
    // $40
    (Mnemonic::Rti, AddrMode::Implied, 1, 6, false, true),
    (Mnemonic::Eor, AddrMode::IndirectX, 2, 6, false, true),
    (Mnemonic::Jam, AddrMode::Implied, 1, 2, false, false),
    (Mnemonic::Sre, AddrMode::IndirectX, 2, 8, false, false),
    (Mnemonic::Nop, AddrMode::ZeroPage, 2, 3, false, false),
    (Mnemonic::Eor, AddrMode::ZeroPage, 2, 3, false, true),
    (Mnemonic::Lsr, AddrMode::ZeroPage, 2, 5, false, true),
    (Mnemonic::Sre, AddrMode::ZeroPage, 2, 5, false, false),
    (Mnemonic::Pha, AddrMode::Implied, 1, 3, false, true),
    (Mnemonic::Eor, AddrMode::Immediate, 2, 2, false, true),
    (Mnemonic::Lsr, AddrMode::Accumulator, 1, 2, false, true),
    (Mnemonic::Alr, AddrMode::Immediate, 2, 2, false, false),
    (Mnemonic::Jmp, AddrMode::Absolute, 3, 3, false, true),
    (Mnemonic::Eor, AddrMode::Absolute, 3, 4, false, true),
    (Mnemonic::Lsr, AddrMode::Absolute, 3, 6, false, true),
    (Mnemonic::Sre, AddrMode::Absolute, 3, 6, false, false),
    // $50
    (Mnemonic::Bvc, AddrMode::Relative, 2, 2, false, true),
    (Mnemonic::Eor, AddrMode::IndirectY, 2, 5, true, true),
    (Mnemonic::Jam, AddrMode::Implied, 1, 2, false, false),
    (Mnemonic::Sre, AddrMode::IndirectY, 2, 8, false, false),
    (Mnemonic::Nop, AddrMode::ZeroPageX, 2, 4, false, false),
    (Mnemonic::Eor, AddrMode::ZeroPageX, 2, 4, false, true),
    (Mnemonic::Lsr, AddrMode::ZeroPageX, 2, 6, false, true),
    (Mnemonic::Sre, AddrMode::ZeroPageX, 2, 6, false, false),
    (Mnemonic::Cli, AddrMode::Implied, 1, 2, false, true),
    (Mnemonic::Eor, AddrMode::AbsoluteY, 3, 4, true, true),
    (Mnemonic::Nop, AddrMode::Implied, 1, 2, false, false),
    (Mnemonic::Sre, AddrMode::AbsoluteY, 3, 7, false, false),
    (Mnemonic::Nop, AddrMode::AbsoluteX, 3, 4, true, false),
    (Mnemonic::Eor, AddrMode::AbsoluteX, 3, 4, true, true),
    (Mnemonic::Lsr, AddrMode::AbsoluteX, 3, 7, false, true),
    (Mnemonic::Sre, AddrMode::AbsoluteX, 3, 7, false, false),
    // $60
    (Mnemonic::Rts, AddrMode::Implied, 1, 6, false, true),
    (Mnemonic::Adc, AddrMode::IndirectX, 2, 6, false, true),
    (Mnemonic::Jam, AddrMode::Implied, 1, 2, false, false),
    (Mnemonic::Rra, AddrMode::IndirectX, 2, 8, false, false),
    (Mnemonic::Nop, AddrMode::ZeroPage, 2, 3, false, false),
    (Mnemonic::Adc, AddrMode::ZeroPage, 2, 3, false, true),
    (Mnemonic::Ror, AddrMode::ZeroPage, 2, 5, false, true),
    (Mnemonic::Rra, AddrMode::ZeroPage, 2, 5, false, false),
    (Mnemonic::Pla, AddrMode::Implied, 1, 4, false, true),
    (Mnemonic::Adc, AddrMode::Immediate, 2, 2, false, true),
    (Mnemonic::Ror, AddrMode::Accumulator, 1, 2, false, true),
    (Mnemonic::Arr, AddrMode::Immediate, 2, 2, false, false),
    (Mnemonic::Jmp, AddrMode::Indirect, 3, 5, false, true),
    (Mnemonic::Adc, AddrMode::Absolute, 3, 4, false, true),
    (Mnemonic::Ror, AddrMode::Absolute, 3, 6, false, true),
    (Mnemonic::Rra, AddrMode::Absolute, 3, 6, false, false),
    // $70
    (Mnemonic::Bvs, AddrMode::Relative, 2, 2, false, true),
    (Mnemonic::Adc, AddrMode::IndirectY, 2, 5, true, true),
    (Mnemonic::Jam, AddrMode::Implied, 1, 2, false, false),
    (Mnemonic::Rra, AddrMode::IndirectY, 2, 8, false, false),
    (Mnemonic::Nop, AddrMode::ZeroPageX, 2, 4, false, false),
    (Mnemonic::Adc, AddrMode::ZeroPageX, 2, 4, false, true),
    (Mnemonic::Ror, AddrMode::ZeroPageX, 2, 6, false, true),
    (Mnemonic::Rra, AddrMode::ZeroPageX, 2, 6, false, false),
    (Mnemonic::Sei, AddrMode::Implied, 1, 2, false, true),
    (Mnemonic::Adc, AddrMode::AbsoluteY, 3, 4, true, true),
    (Mnemonic::Nop, AddrMode::Implied, 1, 2, false, false),
    (Mnemonic::Rra, AddrMode::AbsoluteY, 3, 7, false, false),
    (Mnemonic::Nop, AddrMode::AbsoluteX, 3, 4, true, false),
    (Mnemonic::Adc, AddrMode::AbsoluteX, 3, 4, true, true),
    (Mnemonic::Ror, AddrMode::AbsoluteX, 3, 7, false, true),
    (Mnemonic::Rra, AddrMode::AbsoluteX, 3, 7, false, false),
    // $80
    (Mnemonic::Nop, AddrMode::Immediate, 2, 2, false, false),
    (Mnemonic::Sta, AddrMode::IndirectX, 2, 6, false, true),
    (Mnemonic::Nop, AddrMode::Immediate, 2, 2, false, false),
    (Mnemonic::Sax, AddrMode::IndirectX, 2, 6, false, false),
    (Mnemonic::Sty, AddrMode::ZeroPage, 2, 3, false, true),
    (Mnemonic::Sta, AddrMode::ZeroPage, 2, 3, false, true),
    (Mnemonic::Stx, AddrMode::ZeroPage, 2, 3, false, true),
    (Mnemonic::Sax, AddrMode::ZeroPage, 2, 3, false, false),
    (Mnemonic::Dey, AddrMode::Implied, 1, 2, false, true),
    (Mnemonic::Nop, AddrMode::Immediate, 2, 2, false, false),
    (Mnemonic::Txa, AddrMode::Implied, 1, 2, false, true),
    (Mnemonic::Nop, AddrMode::Implied, 1, 2, false, false),
    (Mnemonic::Sty, AddrMode::Absolute, 3, 4, false, true),
    (Mnemonic::Sta, AddrMode::Absolute, 3, 4, false, true),
    (Mnemonic::Stx, AddrMode::Absolute, 3, 4, false, true),
    (Mnemonic::Sax, AddrMode::Absolute, 3, 4, false, false),
    // $90
    (Mnemonic::Bcc, AddrMode::Relative, 2, 2, false, true),
    (Mnemonic::Sta, AddrMode::IndirectY, 2, 6, false, true),
    (Mnemonic::Jam, AddrMode::Implied, 1, 2, false, false),
    (Mnemonic::Nop, AddrMode::Implied, 1, 2, false, false),
    (Mnemonic::Sty, AddrMode::ZeroPageX, 2, 4, false, true),
    (Mnemonic::Sta, AddrMode::ZeroPageX, 2, 4, false, true),
    (Mnemonic::Stx, AddrMode::ZeroPageY, 2, 4, false, true),
    (Mnemonic::Sax, AddrMode::ZeroPageY, 2, 4, false, false),
    (Mnemonic::Tya, AddrMode::Implied, 1, 2, false, true),
    (Mnemonic::Sta, AddrMode::AbsoluteY, 3, 5, false, true),
    (Mnemonic::Txs, AddrMode::Implied, 1, 2, false, true),
    (Mnemonic::Nop, AddrMode::Implied, 1, 2, false, false),
    (Mnemonic::Shy, AddrMode::AbsoluteX, 3, 5, false, false),
    (Mnemonic::Sta, AddrMode::AbsoluteX, 3, 5, false, true),
    (Mnemonic::Shx, AddrMode::AbsoluteY, 3, 5, false, false),
    (Mnemonic::Nop, AddrMode::Implied, 1, 2, false, false),
    // $A0
    (Mnemonic::Ldy, AddrMode::Immediate, 2, 2, false, true),
    (Mnemonic::Lda, AddrMode::IndirectX, 2, 6, false, true),
    (Mnemonic::Ldx, AddrMode::Immediate, 2, 2, false, true),
    (Mnemonic::Lax, AddrMode::IndirectX, 2, 6, false, false),
    (Mnemonic::Ldy, AddrMode::ZeroPage, 2, 3, false, true),
    (Mnemonic::Lda, AddrMode::ZeroPage, 2, 3, false, true),
    (Mnemonic::Ldx, AddrMode::ZeroPage, 2, 3, false, true),
    (Mnemonic::Lax, AddrMode::ZeroPage, 2, 3, false, false),
    (Mnemonic::Tay, AddrMode::Implied, 1, 2, false, true),
    (Mnemonic::Lda, AddrMode::Immediate, 2, 2, false, true),
    (Mnemonic::Tax, AddrMode::Implied, 1, 2, false, true),
    (Mnemonic::Lxa, AddrMode::Immediate, 2, 2, false, false),
    (Mnemonic::Ldy, AddrMode::Absolute, 3, 4, false, true),
    (Mnemonic::Lda, AddrMode::Absolute, 3, 4, false, true),
    (Mnemonic::Ldx, AddrMode::Absolute, 3, 4, false, true),
    (Mnemonic::Lax, AddrMode::Absolute, 3, 4, false, false),
    // $B0
    (Mnemonic::Bcs, AddrMode::Relative, 2, 2, false, true),
    (Mnemonic::Lda, AddrMode::IndirectY, 2, 5, true, true),
    (Mnemonic::Jam, AddrMode::Implied, 1, 2, false, false),
    (Mnemonic::Lax, AddrMode::IndirectY, 2, 5, true, false),
    (Mnemonic::Ldy, AddrMode::ZeroPageX, 2, 4, false, true),
    (Mnemonic::Lda, AddrMode::ZeroPageX, 2, 4, false, true),
    (Mnemonic::Ldx, AddrMode::ZeroPageY, 2, 4, false, true),
    (Mnemonic::Lax, AddrMode::ZeroPageY, 2, 4, false, false),
    (Mnemonic::Clv, AddrMode::Implied, 1, 2, false, true),
    (Mnemonic::Lda, AddrMode::AbsoluteY, 3, 4, true, true),
    (Mnemonic::Tsx, AddrMode::Implied, 1, 2, false, true),
    (Mnemonic::Nop, AddrMode::Implied, 1, 2, false, false),
    (Mnemonic::Ldy, AddrMode::AbsoluteX, 3, 4, true, true),
    (Mnemonic::Lda, AddrMode::AbsoluteX, 3, 4, true, true),
    (Mnemonic::Ldx, AddrMode::AbsoluteY, 3, 4, true, true),
    (Mnemonic::Lax, AddrMode::AbsoluteY, 3, 4, true, false),
    // $C0
    (Mnemonic::Cpy, AddrMode::Immediate, 2, 2, false, true),
    (Mnemonic::Cmp, AddrMode::IndirectX, 2, 6, false, true),
    (Mnemonic::Nop, AddrMode::Immediate, 2, 2, false, false),
    (Mnemonic::Dcp, AddrMode::IndirectX, 2, 8, false, false),
    (Mnemonic::Cpy, AddrMode::ZeroPage, 2, 3, false, true),
    (Mnemonic::Cmp, AddrMode::ZeroPage, 2, 3, false, true),
    (Mnemonic::Dec, AddrMode::ZeroPage, 2, 5, false, true),
    (Mnemonic::Dcp, AddrMode::ZeroPage, 2, 5, false, false),
    (Mnemonic::Iny, AddrMode::Implied, 1, 2, false, true),
    (Mnemonic::Cmp, AddrMode::Immediate, 2, 2, false, true),
    (Mnemonic::Dex, AddrMode::Implied, 1, 2, false, true),
    (Mnemonic::Axs, AddrMode::Immediate, 2, 2, false, false),
    (Mnemonic::Cpy, AddrMode::Absolute, 3, 4, false, true),
    (Mnemonic::Cmp, AddrMode::Absolute, 3, 4, false, true),
    (Mnemonic::Dec, AddrMode::Absolute, 3, 6, false, true),
    (Mnemonic::Dcp, AddrMode::Absolute, 3, 6, false, false),
    // $D0
    (Mnemonic::Bne, AddrMode::Relative, 2, 2, false, true),
    (Mnemonic::Cmp, AddrMode::IndirectY, 2, 5, true, true),
    (Mnemonic::Jam, AddrMode::Implied, 1, 2, false, false),
    (Mnemonic::Dcp, AddrMode::IndirectY, 2, 8, false, false),
    (Mnemonic::Nop, AddrMode::ZeroPageX, 2, 4, false, false),
    (Mnemonic::Cmp, AddrMode::ZeroPageX, 2, 4, false, true),
    (Mnemonic::Dec, AddrMode::ZeroPageX, 2, 6, false, true),
    (Mnemonic::Dcp, AddrMode::ZeroPageX, 2, 6, false, false),
    (Mnemonic::Cld, AddrMode::Implied, 1, 2, false, true),
    (Mnemonic::Cmp, AddrMode::AbsoluteY, 3, 4, true, true),
    (Mnemonic::Nop, AddrMode::Implied, 1, 2, false, false),
    (Mnemonic::Dcp, AddrMode::AbsoluteY, 3, 7, false, false),
    (Mnemonic::Nop, AddrMode::AbsoluteX, 3, 4, true, false),
    (Mnemonic::Cmp, AddrMode::AbsoluteX, 3, 4, true, true),
    (Mnemonic::Dec, AddrMode::AbsoluteX, 3, 7, false, true),
    (Mnemonic::Dcp, AddrMode::AbsoluteX, 3, 7, false, false),
    // $E0
    (Mnemonic::Cpx, AddrMode::Immediate, 2, 2, false, true),
    (Mnemonic::Sbc, AddrMode::IndirectX, 2, 6, false, true),
    (Mnemonic::Nop, AddrMode::Immediate, 2, 2, false, false),
    (Mnemonic::Isb, AddrMode::IndirectX, 2, 8, false, false),
    (Mnemonic::Cpx, AddrMode::ZeroPage, 2, 3, false, true),
    (Mnemonic::Sbc, AddrMode::ZeroPage, 2, 3, false, true),
    (Mnemonic::Inc, AddrMode::ZeroPage, 2, 5, false, true),
    (Mnemonic::Isb, AddrMode::ZeroPage, 2, 5, false, false),
    (Mnemonic::Inx, AddrMode::Implied, 1, 2, false, true),
    (Mnemonic::Sbc, AddrMode::Immediate, 2, 2, false, true),
    (Mnemonic::Nop, AddrMode::Implied, 1, 2, false, true),
    (Mnemonic::Sbc, AddrMode::Immediate, 2, 2, false, false),
    (Mnemonic::Cpx, AddrMode::Absolute, 3, 4, false, true),
    (Mnemonic::Sbc, AddrMode::Absolute, 3, 4, false, true),
    (Mnemonic::Inc, AddrMode::Absolute, 3, 6, false, true),
    (Mnemonic::Isb, AddrMode::Absolute, 3, 6, false, false),
    // $F0
    (Mnemonic::Beq, AddrMode::Relative, 2, 2, false, true),
    (Mnemonic::Sbc, AddrMode::IndirectY, 2, 5, true, true),
    (Mnemonic::Jam, AddrMode::Implied, 1, 2, false, false),
    (Mnemonic::Isb, AddrMode::IndirectY, 2, 8, false, false),
    (Mnemonic::Nop, AddrMode::ZeroPageX, 2, 4, false, false),
    (Mnemonic::Sbc, AddrMode::ZeroPageX, 2, 4, false, true),
    (Mnemonic::Inc, AddrMode::ZeroPageX, 2, 6, false, true),
    (Mnemonic::Isb, AddrMode::ZeroPageX, 2, 6, false, false),
    (Mnemonic::Sed, AddrMode::Implied, 1, 2, false, true),
    (Mnemonic::Sbc, AddrMode::AbsoluteY, 3, 4, true, true),
    (Mnemonic::Nop, AddrMode::Implied, 1, 2, false, false),
    (Mnemonic::Isb, AddrMode::AbsoluteY, 3, 7, false, false),
    (Mnemonic::Nop, AddrMode::AbsoluteX, 3, 4, true, false),
    (Mnemonic::Sbc, AddrMode::AbsoluteX, 3, 4, true, true),
    (Mnemonic::Inc, AddrMode::AbsoluteX, 3, 7, false, true),
    (Mnemonic::Isb, AddrMode::AbsoluteX, 3, 7, false, false),
];

/// The opcode with this number.
#[verifier::opaque]
pub open spec fn decoded(opcode: u8) -> OpcodeInfo {
    let row = OPCODES@[opcode as int];
    OpcodeInfo {
        mnemonic: row.0,
        mode: row.1,
        bytes: row.2,
        cycles: row.3,
        page_cross_penalty: row.4,
        official: row.5,
    }
}

pub fn opcode_info(opcode: u8) -> (info: OpcodeInfo)
    ensures
        info == decoded(opcode),
{
    reveal(decoded);
    let row: (Mnemonic, AddrMode, u8, u8, bool, bool) = OPCODES[opcode as usize];
    op(row.0, row.1, row.2, row.3, row.4, row.5)
}

/// How many bytes the operand of a mode takes.
pub open spec fn operand_bytes(mode: AddrMode) -> u8 {
    match mode {
        AddrMode::Implied | AddrMode::Accumulator => 0,
        AddrMode::Absolute | AddrMode::AbsoluteX | AddrMode::AbsoluteY | AddrMode::Indirect => 2,
        _ => 1,
    }
}

/// Every instruction is as long as its operand asks for, and takes two to eight cycles.
pub proof fn law_opcode_sizes(opcode: u8)
    ensures
        decoded(opcode).bytes == 1 + operand_bytes(decoded(opcode).mode),
        2 <= decoded(opcode).cycles <= 8,
{
    reveal(decoded);
}

impl Mnemonic {
    /// The letters of the name.
    pub open spec fn letters(self) -> (char, char, char) {
        match self {
            Mnemonic::Lda => ('L', 'D', 'A'),
            Mnemonic::Ldx => ('L', 'D', 'X'),
            Mnemonic::Ldy => ('L', 'D', 'Y'),
            Mnemonic::Sta => ('S', 'T', 'A'),
            Mnemonic::Stx => ('S', 'T', 'X'),
            Mnemonic::Sty => ('S', 'T', 'Y'),
            Mnemonic::Tax => ('T', 'A', 'X'),
            Mnemonic::Tay => ('T', 'A', 'Y'),
            Mnemonic::Txa => ('T', 'X', 'A'),
            Mnemonic::Tya => ('T', 'Y', 'A'),
            Mnemonic::Tsx => ('T', 'S', 'X'),
            Mnemonic::Txs => ('T', 'X', 'S'),
            Mnemonic::Pha => ('P', 'H', 'A'),
            Mnemonic::Php => ('P', 'H', 'P'),
            Mnemonic::Pla => ('P', 'L', 'A'),
            Mnemonic::Plp => ('P', 'L', 'P'),
            Mnemonic::Adc => ('A', 'D', 'C'),
            Mnemonic::Sbc => ('S', 'B', 'C'),
            Mnemonic::Inc => ('I', 'N', 'C'),
            Mnemonic::Dec => ('D', 'E', 'C'),
            Mnemonic::Inx => ('I', 'N', 'X'),
            Mnemonic::Iny => ('I', 'N', 'Y'),
            Mnemonic::Dex => ('D', 'E', 'X'),
            Mnemonic::Dey => ('D', 'E', 'Y'),
            Mnemonic::Asl => ('A', 'S', 'L'),
            Mnemonic::Lsr => ('L', 'S', 'R'),
            Mnemonic::Rol => ('R', 'O', 'L'),
            Mnemonic::Ror => ('R', 'O', 'R'),
            Mnemonic::And => ('A', 'N', 'D'),
            Mnemonic::Ora => ('O', 'R', 'A'),
            Mnemonic::Eor => ('E', 'O', 'R'),
            Mnemonic::Bit => ('B', 'I', 'T'),
            Mnemonic::Cmp => ('C', 'M', 'P'),
            Mnemonic::Cpx => ('C', 'P', 'X'),
            Mnemonic::Cpy => ('C', 'P', 'Y'),
            Mnemonic::Bcc => ('B', 'C', 'C'),
            Mnemonic::Bcs => ('B', 'C', 'S'),
            Mnemonic::Beq => ('B', 'E', 'Q'),
            Mnemonic::Bne => ('B', 'N', 'E'),
            Mnemonic::Bmi => ('B', 'M', 'I'),
            Mnemonic::Bpl => ('B', 'P', 'L'),
            Mnemonic::Bvc => ('B', 'V', 'C'),
            Mnemonic::Bvs => ('B', 'V', 'S'),
            Mnemonic::Jmp => ('J', 'M', 'P'),
            Mnemonic::Jsr => ('J', 'S', 'R'),
            Mnemonic::Rts => ('R', 'T', 'S'),
            Mnemonic::Rti => ('R', 'T', 'I'),
            Mnemonic::Brk => ('B', 'R', 'K'),
            Mnemonic::Clc => ('C', 'L', 'C'),
            Mnemonic::Sec => ('S', 'E', 'C'),
            Mnemonic::Cli => ('C', 'L', 'I'),
            Mnemonic::Sei => ('S', 'E', 'I'),
            Mnemonic::Clv => ('C', 'L', 'V'),
            Mnemonic::Cld => ('C', 'L', 'D'),
            Mnemonic::Sed => ('S', 'E', 'D'),
            Mnemonic::Nop => ('N', 'O', 'P'),
            Mnemonic::Lax => ('L', 'A', 'X'),
            Mnemonic::Sax => ('S', 'A', 'X'),
            Mnemonic::Dcp => ('D', 'C', 'P'),
            Mnemonic::Isb => ('I', 'S', 'B'),
            Mnemonic::Slo => ('S', 'L', 'O'),
            Mnemonic::Rla => ('R', 'L', 'A'),
            Mnemonic::Sre => ('S', 'R', 'E'),
            Mnemonic::Rra => ('R', 'R', 'A'),
            Mnemonic::Anc => ('A', 'N', 'C'),
            Mnemonic::Alr => ('A', 'L', 'R'),
            Mnemonic::Arr => ('A', 'R', 'R'),
            Mnemonic::Axs => ('A', 'X', 'S'),
            Mnemonic::Shy => ('S', 'H', 'Y'),
            Mnemonic::Shx => ('S', 'H', 'X'),
            Mnemonic::Lxa => ('L', 'X', 'A'),
            Mnemonic::Jam => ('J', 'A', 'M'),
        }
    }
}

proof fn lemma_spelled(m: Mnemonic)
    ensures
        m.name() == seq![m.letters().0, m.letters().1, m.letters().2],
{
    match m {
        Mnemonic::Lda => {
            reveal_strlit("LDA");
        },
        Mnemonic::Ldx => {
            reveal_strlit("LDX");
        },
        Mnemonic::Ldy => {
            reveal_strlit("LDY");
        },
        Mnemonic::Sta => {
            reveal_strlit("STA");
        },
        Mnemonic::Stx => {
            reveal_strlit("STX");
        },
        Mnemonic::Sty => {
            reveal_strlit("STY");
        },
        Mnemonic::Tax => {
            reveal_strlit("TAX");
        },
        Mnemonic::Tay => {
            reveal_strlit("TAY");
        },
        Mnemonic::Txa => {
            reveal_strlit("TXA");
        },
        Mnemonic::Tya => {
            reveal_strlit("TYA");
        },
        Mnemonic::Tsx => {
            reveal_strlit("TSX");
        },
        Mnemonic::Txs => {
            reveal_strlit("TXS");
        },
        Mnemonic::Pha => {
            reveal_strlit("PHA");
        },
        Mnemonic::Php => {
            reveal_strlit("PHP");
        },
        Mnemonic::Pla => {
            reveal_strlit("PLA");
        },
        Mnemonic::Plp => {
            reveal_strlit("PLP");
        },
        Mnemonic::Adc => {
            reveal_strlit("ADC");
        },
        Mnemonic::Sbc => {
            reveal_strlit("SBC");
        },
        Mnemonic::Inc => {
            reveal_strlit("INC");
        },
        Mnemonic::Dec => {
            reveal_strlit("DEC");
        },
        Mnemonic::Inx => {
            reveal_strlit("INX");
        },
        Mnemonic::Iny => {
            reveal_strlit("INY");
        },
        Mnemonic::Dex => {
            reveal_strlit("DEX");
        },
        Mnemonic::Dey => {
            reveal_strlit("DEY");
        },
        Mnemonic::Asl => {
            reveal_strlit("ASL");
        },
        Mnemonic::Lsr => {
            reveal_strlit("LSR");
        },
        Mnemonic::Rol => {
            reveal_strlit("ROL");
        },
        Mnemonic::Ror => {
            reveal_strlit("ROR");
        },
        Mnemonic::And => {
            reveal_strlit("AND");
        },
        Mnemonic::Ora => {
            reveal_strlit("ORA");
        },
        Mnemonic::Eor => {
            reveal_strlit("EOR");
        },
        Mnemonic::Bit => {
            reveal_strlit("BIT");
        },
        Mnemonic::Cmp => {
            reveal_strlit("CMP");
        },
        Mnemonic::Cpx => {
            reveal_strlit("CPX");
        },
        Mnemonic::Cpy => {
            reveal_strlit("CPY");
        },
        Mnemonic::Bcc => {
            reveal_strlit("BCC");
        },
        Mnemonic::Bcs => {
            reveal_strlit("BCS");
        },
        Mnemonic::Beq => {
            reveal_strlit("BEQ");
        },
        Mnemonic::Bne => {
            reveal_strlit("BNE");
        },
        Mnemonic::Bmi => {
            reveal_strlit("BMI");
        },
        Mnemonic::Bpl => {
            reveal_strlit("BPL");
        },
        Mnemonic::Bvc => {
            reveal_strlit("BVC");
        },
        Mnemonic::Bvs => {
            reveal_strlit("BVS");
        },
        Mnemonic::Jmp => {
            reveal_strlit("JMP");
        },
        Mnemonic::Jsr => {
            reveal_strlit("JSR");
        },
        Mnemonic::Rts => {
            reveal_strlit("RTS");
        },
        Mnemonic::Rti => {
            reveal_strlit("RTI");
        },
        Mnemonic::Brk => {
            reveal_strlit("BRK");
        },
        Mnemonic::Clc => {
            reveal_strlit("CLC");
        },
        Mnemonic::Sec => {
            reveal_strlit("SEC");
        },
        Mnemonic::Cli => {
            reveal_strlit("CLI");
        },
        Mnemonic::Sei => {
            reveal_strlit("SEI");
        },
        Mnemonic::Clv => {
            reveal_strlit("CLV");
        },
        Mnemonic::Cld => {
            reveal_strlit("CLD");
        },
        Mnemonic::Sed => {
            reveal_strlit("SED");
        },
        Mnemonic::Nop => {
            reveal_strlit("NOP");
        },
        Mnemonic::Lax => {
            reveal_strlit("LAX");
        },
        Mnemonic::Sax => {
            reveal_strlit("SAX");
        },
        Mnemonic::Dcp => {
            reveal_strlit("DCP");
        },
        Mnemonic::Isb => {
            reveal_strlit("ISB");
        },
        Mnemonic::Slo => {
            reveal_strlit("SLO");
        },
        Mnemonic::Rla => {
            reveal_strlit("RLA");
        },
        Mnemonic::Sre => {
            reveal_strlit("SRE");
        },
        Mnemonic::Rra => {
            reveal_strlit("RRA");
        },
        Mnemonic::Anc => {
            reveal_strlit("ANC");
        },
        Mnemonic::Alr => {
            reveal_strlit("ALR");
        },
        Mnemonic::Arr => {
            reveal_strlit("ARR");
        },
        Mnemonic::Axs => {
            reveal_strlit("AXS");
        },
        Mnemonic::Shy => {
            reveal_strlit("SHY");
        },
        Mnemonic::Shx => {
            reveal_strlit("SHX");
        },
        Mnemonic::Lxa => {
            reveal_strlit("LXA");
        },
        Mnemonic::Jam => {
            reveal_strlit("JAM");
        },
    }
    assert(m.name() =~= seq![m.letters().0, m.letters().1, m.letters().2]);
}

/// A name is three capital letters, and no two mnemonics share one.
pub proof fn law_names_tell_mnemonics_apart(a: Mnemonic, b: Mnemonic)
    ensures
        a.name().len() == 3,
        forall|i: int| 0 <= i < 3 ==> 'A' <= #[trigger] a.name()[i] <= 'Z',
        a.name() == b.name() ==> a == b,
{
    lemma_spelled(a);
    lemma_spelled(b);
    if a.name() == b.name() {
        assert(a.letters().0 == a.name()[0] && b.letters().0 == b.name()[0]);
        assert(a.letters().1 == a.name()[1] && b.letters().1 == b.name()[1]);
        assert(a.letters().2 == a.name()[2] && b.letters().2 == b.name()[2]);
    }
}

} // verus!

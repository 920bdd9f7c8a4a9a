//! The pattern in the opcodes: the low two bits tell a group, the high three the instruction and the
//! middle three how it finds its operand.

use vstd::prelude::*;

use crate::cpu::opcodes::{decoded, AddrMode, Mnemonic};

verus! {

/// The instruction of a row in the first group: arithmetic on the accumulator.
pub open spec fn arithmetic(row: int) -> Mnemonic {
    if row == 0 {
        Mnemonic::Ora
    } else if row == 1 {
        Mnemonic::And
    } else if row == 2 {
        Mnemonic::Eor
    } else if row == 3 {
        Mnemonic::Adc
    } else if row == 4 {
        Mnemonic::Sta
    } else if row == 5 {
        Mnemonic::Lda
    } else if row == 6 {
        Mnemonic::Cmp
    } else {
        Mnemonic::Sbc
    }
}

/// That of the second group: changes of memory, and X.
pub open spec fn changing(row: int) -> Mnemonic {
    if row == 0 {
        Mnemonic::Asl
    } else if row == 1 {
        Mnemonic::Rol
    } else if row == 2 {
        Mnemonic::Lsr
    } else if row == 3 {
        Mnemonic::Ror
    } else if row == 4 {
        Mnemonic::Stx
    } else if row == 5 {
        Mnemonic::Ldx
    } else if row == 6 {
        Mnemonic::Dec
    } else {
        Mnemonic::Inc
    }
}

/// That of the third group, undocumented: the first two at once.
pub open spec fn both(row: int) -> Mnemonic {
    if row == 0 {
        Mnemonic::Slo
    } else if row == 1 {
        Mnemonic::Rla
    } else if row == 2 {
        Mnemonic::Sre
    } else if row == 3 {
        Mnemonic::Rra
    } else if row == 4 {
        Mnemonic::Sax
    } else if row == 5 {
        Mnemonic::Lax
    } else if row == 6 {
        Mnemonic::Dcp
    } else {
        Mnemonic::Isb
    }
}

/// The mode of a column in the first and third group.
pub open spec fn mode_of(column: int) -> AddrMode {
    if column == 0 {
        AddrMode::IndirectX
    } else if column == 1 {
        AddrMode::ZeroPage
    } else if column == 2 {
        AddrMode::Immediate
    } else if column == 3 {
        AddrMode::Absolute
    } else if column == 4 {
        AddrMode::IndirectY
    } else if column == 5 {
        AddrMode::ZeroPageX
    } else if column == 6 {
        AddrMode::AbsoluteY
    } else {
        AddrMode::AbsoluteX
    }
}

/// Instructions with X as operand index by Y in place of X.
pub open spec fn by_y(mode: AddrMode) -> AddrMode {
    if mode == AddrMode::ZeroPageX {
        AddrMode::ZeroPageY
    } else if mode == AddrMode::AbsoluteX {
        AddrMode::AbsoluteY
    } else {
        mode
    }
}

/// The first group has all eight instructions in all eight modes; only storing to an immediate
/// operand is left out, and does nothing.
pub proof fn law_the_first_group(opcode: u8)
    requires
        opcode % 4 == 1,
    ensures
        ({
            let info = decoded(opcode);
            let row = opcode as int / 32;
            let column = opcode as int / 4 % 8;
            &&& info.mode == mode_of(column)
            &&& info.mnemonic == if row == 4 && column == 2 {
                Mnemonic::Nop
            } else {
                arithmetic(row)
            }
            &&& info.official == !(row == 4 && column == 2)
        }),
{
    reveal(decoded);
}

/// The second group has the zero page and absolute modes in its odd columns, the accumulator or the
/// transfers of X in column 2, and those of the stack pointer in column 6. Storing X masked is
/// undocumented, and the rest loads X, does nothing or stops the CPU.
pub proof fn law_the_second_group(opcode: u8)
    requires
        opcode % 4 == 2,
    ensures
        ({
            let info = decoded(opcode);
            let row = opcode as int / 32;
            let column = opcode as int / 4 % 8;
            let with_x = row == 4 || row == 5;
            let odd = column % 2 == 1;
            let mode = if with_x { by_y(mode_of(column)) } else { mode_of(column) };
            &&& odd ==> info.mode == mode
            &&& odd ==> info.mnemonic == if row == 4 && column == 7 {
                Mnemonic::Shx
            } else {
                changing(row)
            }
            &&& column == 0 && row < 4 ==> info.mnemonic == Mnemonic::Jam
            &&& column == 0 && row >= 4 ==> info.mode == AddrMode::Immediate && info.mnemonic
                == if row == 5 { Mnemonic::Ldx } else { Mnemonic::Nop }
            &&& column == 2 && row < 4 ==> info.mode == AddrMode::Accumulator && info.mnemonic
                == changing(row)
            &&& column == 2 && row >= 4 ==> info.mode == AddrMode::Implied && info.mnemonic
                == if row == 4 {
                Mnemonic::Txa
            } else if row == 5 {
                Mnemonic::Tax
            } else if row == 6 {
                Mnemonic::Dex
            } else {
                Mnemonic::Nop
            }
            &&& column == 4 ==> info.mnemonic == Mnemonic::Jam
            &&& column == 6 ==> info.mode == AddrMode::Implied && info.mnemonic == if row == 4 {
                Mnemonic::Txs
            } else if row == 5 {
                Mnemonic::Tsx
            } else {
                Mnemonic::Nop
            }
            &&& info.official == if column == 0 {
                row == 5
            } else if column == 4 {
                false
            } else if column == 6 {
                with_x
            } else {
                !(row == 4 && column == 7)
            }
        }),
{
    reveal(decoded);
}

/// The third group does what the first two do at the same place, undocumented, but for the immediate
/// mode and a few that do nothing.
pub proof fn law_the_third_group(opcode: u8)
    requires
        opcode % 4 == 3,
    ensures
        ({
            let info = decoded(opcode);
            let row = opcode as int / 32;
            let column = opcode as int / 4 % 8;
            let with_x = row == 4 || row == 5;
            let nothing = (row == 4 && (column == 2 || column == 4 || column >= 6)) || (row == 5
                && column == 6);
            &&& !info.official
            &&& nothing ==> info.mnemonic == Mnemonic::Nop && info.mode == AddrMode::Implied
            &&& !nothing ==> info.mode == if with_x {
                by_y(mode_of(column))
            } else {
                mode_of(column)
            }
            &&& !nothing && column != 2 ==> info.mnemonic == both(row)
            &&& !nothing && column == 2 ==> info.mnemonic == if row < 2 {
                Mnemonic::Anc
            } else if row == 2 {
                Mnemonic::Alr
            } else if row == 3 {
                Mnemonic::Arr
            } else if row == 5 {
                Mnemonic::Lxa
            } else if row == 6 {
                Mnemonic::Axs
            } else {
                Mnemonic::Sbc
            }
        }),
{
    reveal(decoded);
}

/// The last group: in column 4 the branches, which go by negative, overflow, carry and zero in turn,
/// first when clear and then when set; in column 6 the flags; in column 2 the stack, Y and X; in
/// column 0 the jumps; and elsewhere Y and X, and bit tests.
pub proof fn law_the_last_group(opcode: u8)
    requires
        opcode % 4 == 0,
    ensures
        ({
            let info = decoded(opcode);
            let row = opcode as int / 32;
            let column = opcode as int / 4 % 8;
            &&& column == 4 ==> info.mode == AddrMode::Relative && info.mnemonic == if row == 0 {
                Mnemonic::Bpl
            } else if row == 1 {
                Mnemonic::Bmi
            } else if row == 2 {
                Mnemonic::Bvc
            } else if row == 3 {
                Mnemonic::Bvs
            } else if row == 4 {
                Mnemonic::Bcc
            } else if row == 5 {
                Mnemonic::Bcs
            } else if row == 6 {
                Mnemonic::Bne
            } else {
                Mnemonic::Beq
            }
            &&& column == 6 ==> info.mode == AddrMode::Implied && info.mnemonic == if row == 0 {
                Mnemonic::Clc
            } else if row == 1 {
                Mnemonic::Sec
            } else if row == 2 {
                Mnemonic::Cli
            } else if row == 3 {
                Mnemonic::Sei
            } else if row == 4 {
                Mnemonic::Tya
            } else if row == 5 {
                Mnemonic::Clv
            } else if row == 6 {
                Mnemonic::Cld
            } else {
                Mnemonic::Sed
            }
            &&& column == 2 ==> info.mode == AddrMode::Implied && info.mnemonic == if row == 0 {
                Mnemonic::Php
            } else if row == 1 {
                Mnemonic::Plp
            } else if row == 2 {
                Mnemonic::Pha
            } else if row == 3 {
                Mnemonic::Pla
            } else if row == 4 {
                Mnemonic::Dey
            } else if row == 5 {
                Mnemonic::Tay
            } else if row == 6 {
                Mnemonic::Iny
            } else {
                Mnemonic::Inx
            }
            &&& column == 0 && row < 4 ==> info.mnemonic == if row == 0 {
                Mnemonic::Brk
            } else if row == 1 {
                Mnemonic::Jsr
            } else if row == 2 {
                Mnemonic::Rti
            } else {
                Mnemonic::Rts
            }
            &&& column == 0 && row < 4 ==> info.mode == if row == 1 {
                AddrMode::Absolute
            } else {
                AddrMode::Implied
            }
            &&& column == 0 && row >= 4 ==> info.mode == AddrMode::Immediate
            &&& column % 2 == 1 ==> info.mode == if row == 3 && column == 3 {
                AddrMode::Indirect
            } else {
                mode_of(column)
            }
            &&& (column == 0 && row >= 4) || column % 2 == 1 ==> info.mnemonic == if row == 4 {
                if column == 0 {
                    Mnemonic::Nop
                } else if column == 7 {
                    Mnemonic::Shy
                } else {
                    Mnemonic::Sty
                }
            } else if row == 5 {
                Mnemonic::Ldy
            } else if row == 6 && column < 5 {
                Mnemonic::Cpy
            } else if row == 7 && column < 5 {
                Mnemonic::Cpx
            } else if row == 1 && column < 5 {
                Mnemonic::Bit
            } else if (row == 2 || row == 3) && column == 3 {
                Mnemonic::Jmp
            } else {
                Mnemonic::Nop
            }
            &&& info.official == (info.mnemonic != Mnemonic::Nop && info.mnemonic != Mnemonic::Shy)
        }),
{
    reveal(decoded);
}

/// How many cycles an instruction takes: by its mode, and by whether it reads, writes or changes
/// its operand. Reading with an index takes one more where that leaves the page, and writing always
/// does.
pub proof fn law_opcode_times(opcode: u8)
    ensures
        ({
            let info = decoded(opcode);
            let m = info.mnemonic;
            let changes = m == Mnemonic::Inc || m == Mnemonic::Dec || m == Mnemonic::Asl || m
                == Mnemonic::Lsr || m == Mnemonic::Rol || m == Mnemonic::Ror || m == Mnemonic::Slo
                || m == Mnemonic::Rla || m == Mnemonic::Sre || m == Mnemonic::Rra || m
                == Mnemonic::Dcp || m == Mnemonic::Isb;
            let writes = m == Mnemonic::Sta || m == Mnemonic::Stx || m == Mnemonic::Sty || m
                == Mnemonic::Sax || m == Mnemonic::Shx || m == Mnemonic::Shy;
            let reads = !changes && !writes;
            let indexed = info.mode == AddrMode::AbsoluteX || info.mode == AddrMode::AbsoluteY
                || info.mode == AddrMode::IndirectY;
            let plain = match info.mode {
                AddrMode::Implied => if m == Mnemonic::Brk {
                    7int
                } else if m == Mnemonic::Rti || m == Mnemonic::Rts {
                    6
                } else if m == Mnemonic::Pla || m == Mnemonic::Plp {
                    4
                } else if m == Mnemonic::Pha || m == Mnemonic::Php {
                    3
                } else {
                    2
                },
                AddrMode::Accumulator | AddrMode::Immediate | AddrMode::Relative => 2,
                AddrMode::ZeroPage => 3,
                AddrMode::ZeroPageX | AddrMode::ZeroPageY => 4,
                AddrMode::Absolute => if m == Mnemonic::Jmp {
                    3
                } else if m == Mnemonic::Jsr {
                    6
                } else {
                    4
                },
                AddrMode::AbsoluteX | AddrMode::AbsoluteY => if reads { 4 } else { 5 },
                AddrMode::Indirect => 5,
                AddrMode::IndirectX => 6,
                AddrMode::IndirectY => if reads { 5 } else { 6 },
            };
            &&& info.cycles == if changes && info.mode != AddrMode::Accumulator {
                plain + 2
            } else {
                plain
            }
            &&& info.page_cross_penalty == (indexed && reads)
        }),
{
    reveal(decoded);
}

} // verus!

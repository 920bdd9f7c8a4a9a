//! What each instruction does once its operand is found.

use vstd::prelude::*;

use super::opcodes::{AddrMode, Mnemonic};
use super::{page, page_crossed, Cpu, CpuModel, StatusFlags, IRQ_VECTOR};
use crate::bus::group_leads_to;

verus! {

broadcast use group_leads_to;

/// What LXA combines the accumulator with. It differs from chip to chip; with this value the
/// accumulator does not matter.
pub const LXA_MAGIC: u8 = 0xFF;

/// The groups of instructions, by what they do to memory.
pub enum Kind {
    /// Reads a value and works on the registers.
    Reads,
    /// Writes a value.
    Writes,
    /// Reads a value and writes it back changed, or changes the accumulator.
    Modifies,
    /// Works on the registers alone.
    Registers,
    /// Uses the stack.
    Stacks,
    /// May continue elsewhere.
    Branches,
    /// Continues elsewhere.
    Jumps,
}

/// The group of an instruction.
pub open spec fn kind(mnemonic: Mnemonic) -> Kind {
    match mnemonic {
        Mnemonic::Sta
        | Mnemonic::Stx
        | Mnemonic::Sty
        | Mnemonic::Sax
        | Mnemonic::Shy
        | Mnemonic::Shx => Kind::Writes,
        Mnemonic::Inc
        | Mnemonic::Dec
        | Mnemonic::Asl
        | Mnemonic::Lsr
        | Mnemonic::Rol
        | Mnemonic::Ror
        | Mnemonic::Dcp
        | Mnemonic::Isb
        | Mnemonic::Slo
        | Mnemonic::Rla
        | Mnemonic::Sre
        | Mnemonic::Rra => Kind::Modifies,
        Mnemonic::Tax
        | Mnemonic::Tay
        | Mnemonic::Txa
        | Mnemonic::Tya
        | Mnemonic::Tsx
        | Mnemonic::Inx
        | Mnemonic::Iny
        | Mnemonic::Dex
        | Mnemonic::Dey
        | Mnemonic::Txs
        | Mnemonic::Clc
        | Mnemonic::Sec
        | Mnemonic::Cli
        | Mnemonic::Sei
        | Mnemonic::Clv
        | Mnemonic::Cld
        | Mnemonic::Sed
        | Mnemonic::Jam => Kind::Registers,
        Mnemonic::Pha | Mnemonic::Php | Mnemonic::Pla | Mnemonic::Plp => Kind::Stacks,
        Mnemonic::Bcc
        | Mnemonic::Bcs
        | Mnemonic::Beq
        | Mnemonic::Bne
        | Mnemonic::Bmi
        | Mnemonic::Bpl
        | Mnemonic::Bvc
        | Mnemonic::Bvs => Kind::Branches,
        Mnemonic::Jmp | Mnemonic::Jsr | Mnemonic::Rts | Mnemonic::Rti | Mnemonic::Brk => Kind::Jumps,
        _ => Kind::Reads,
    }
}

fn kind_of(mnemonic: Mnemonic) -> (k: Kind)
    ensures
        k == kind(mnemonic),
{
    match mnemonic {
        Mnemonic::Sta
        | Mnemonic::Stx
        | Mnemonic::Sty
        | Mnemonic::Sax
        | Mnemonic::Shy
        | Mnemonic::Shx => Kind::Writes,
        Mnemonic::Inc
        | Mnemonic::Dec
        | Mnemonic::Asl
        | Mnemonic::Lsr
        | Mnemonic::Rol
        | Mnemonic::Ror
        | Mnemonic::Dcp
        | Mnemonic::Isb
        | Mnemonic::Slo
        | Mnemonic::Rla
        | Mnemonic::Sre
        | Mnemonic::Rra => Kind::Modifies,
        Mnemonic::Tax
        | Mnemonic::Tay
        | Mnemonic::Txa
        | Mnemonic::Tya
        | Mnemonic::Tsx
        | Mnemonic::Inx
        | Mnemonic::Iny
        | Mnemonic::Dex
        | Mnemonic::Dey
        | Mnemonic::Txs
        | Mnemonic::Clc
        | Mnemonic::Sec
        | Mnemonic::Cli
        | Mnemonic::Sei
        | Mnemonic::Clv
        | Mnemonic::Cld
        | Mnemonic::Sed
        | Mnemonic::Jam => Kind::Registers,
        Mnemonic::Pha | Mnemonic::Php | Mnemonic::Pla | Mnemonic::Plp => Kind::Stacks,
        Mnemonic::Bcc
        | Mnemonic::Bcs
        | Mnemonic::Beq
        | Mnemonic::Bne
        | Mnemonic::Bmi
        | Mnemonic::Bpl
        | Mnemonic::Bvc
        | Mnemonic::Bvs => Kind::Branches,
        Mnemonic::Jmp | Mnemonic::Jsr | Mnemonic::Rts | Mnemonic::Rti | Mnemonic::Brk => Kind::Jumps,
        _ => Kind::Reads,
    }
}

/// A flag as a number.
pub open spec fn bit_of(on: bool) -> u8 {
    if on { 1 } else { 0 }
}

/// Whether adding `a` and `v` to `sum`, all taken as signed, leaves the range: the signs of the
/// two agree and that of the sum does not.
pub open spec fn overflows(a: u8, v: u8, sum: u8) -> bool {
    (a < 0x80) == (v < 0x80) && (a < 0x80) != (sum < 0x80)
}

proof fn lemma_overflow_bits(a: u8, v: u8, sum: u8)
    by (bit_vector)
    ensures
        ((!(a ^ v) & (a ^ sum)) & 0x80 != 0) == ((a < 0x80) == (v < 0x80) && (a < 0x80) != (sum
            < 0x80)),
{
}

impl CpuModel {
    pub open spec fn carry(self) -> bool {
        self.status.has(0x01)
    }

    /// The accumulator is set, and the flags judge it.
    pub open spec fn with_a(self, value: u8) -> CpuModel {
        CpuModel { a: value, status: self.status.judged(value), ..self }
    }

    /// `v` and the carry are added to the accumulator.
    pub open spec fn added(self, v: u8) -> CpuModel {
        let sum = self.a + v + bit_of(self.carry());
        let result = (sum % 256) as u8;
        CpuModel {
            a: result,
            status: self.status.with(0x01, sum > 255).with(
                0x40,
                overflows(self.a, v, result),
            ).judged(result),
            ..self
        }
    }

    /// The flags after comparing a register with `v`.
    pub open spec fn compared(self, reg: u8, v: u8) -> CpuModel {
        CpuModel {
            status: self.status.judged_with_carry(reg >= v, reg.wrapping_sub(v)),
            ..self
        }
    }

    /// ARR: the masked accumulator rotated right, with carry and overflow from bits 6 and 5.
    pub open spec fn rotated_sum(self, masked: u8) -> CpuModel {
        let out = (masked >> 1) | (bit_of(self.carry()) << 7);
        let bit6 = (out >> 6) & 1;
        let bit5 = (out >> 5) & 1;
        CpuModel {
            a: out,
            status: self.status.judged(out).with(0x01, bit6 == 1).with(0x40, bit6 ^ bit5 == 1),
            ..self
        }
    }

    /// The registers after an instruction that loads a register with `v`.
    #[verifier::opaque]
    pub open spec fn loaded(self, mnemonic: Mnemonic, v: u8) -> CpuModel {
        match mnemonic {
            Mnemonic::Lda => CpuModel { a: v, status: self.status.judged(v), ..self },
            Mnemonic::Ldx => CpuModel { x: v, status: self.status.judged(v), ..self },
            Mnemonic::Ldy => CpuModel { y: v, status: self.status.judged(v), ..self },
            Mnemonic::Lax => CpuModel { x: v, ..self.with_a(v) },
            Mnemonic::Lxa => {
                let out = (self.a | 0xFF) & v;
                CpuModel { x: out, ..self.with_a(out) }
            },
            _ => self,
        }
    }

    /// The registers after an instruction that combines the accumulator with `v`.
    #[verifier::opaque]
    pub open spec fn calculated(self, mnemonic: Mnemonic, v: u8) -> CpuModel {
        match mnemonic {
            Mnemonic::Adc => self.added(v),
            Mnemonic::Sbc => self.added(v ^ 0xFF),
            Mnemonic::And => self.with_a(self.a & v),
            Mnemonic::Ora => self.with_a(self.a | v),
            Mnemonic::Eor => self.with_a(self.a ^ v),
            _ => self,
        }
    }

    /// The registers after an instruction that compares with `v`.
    #[verifier::opaque]
    pub open spec fn tested(self, mnemonic: Mnemonic, v: u8) -> CpuModel {
        match mnemonic {
            Mnemonic::Cmp => self.compared(self.a, v),
            Mnemonic::Cpx => self.compared(self.x, v),
            Mnemonic::Cpy => self.compared(self.y, v),
            Mnemonic::Bit => CpuModel {
                status: self.status.with(0x02, self.a & v == 0).with(0x40, v & 0x40 != 0).with(
                    0x80,
                    v & 0x80 != 0,
                ),
                ..self
            },
            _ => self,
        }
    }

    /// The registers after an instruction that masks the accumulator with `v`, undocumented.
    #[verifier::opaque]
    pub open spec fn masked(self, mnemonic: Mnemonic, v: u8) -> CpuModel {
        match mnemonic {
            Mnemonic::Anc => {
                let c = self.with_a(self.a & v);
                CpuModel { status: c.status.with(0x01, c.status.has(0x80)), ..c }
            },
            Mnemonic::Alr => {
                let low = (self.a & v) & 1 != 0;
                let out = (self.a & v) >> 1;
                CpuModel { a: out, status: self.status.judged_with_carry(low, out), ..self }
            },
            Mnemonic::Arr => self.rotated_sum(self.a & v),
            Mnemonic::Axs => {
                let base = self.a & self.x;
                let out = base.wrapping_sub(v);
                CpuModel { x: out, status: self.status.judged_with_carry(base >= v, out), ..self }
            },
            _ => self,
        }
    }

    /// The registers after an instruction that read `v`.
    #[verifier::opaque]
    pub open spec fn value_applied(self, mnemonic: Mnemonic, v: u8) -> CpuModel {
        match mnemonic {
            Mnemonic::Lda
            | Mnemonic::Ldx
            | Mnemonic::Ldy
            | Mnemonic::Lax
            | Mnemonic::Lxa => self.loaded(mnemonic, v),
            Mnemonic::Adc
            | Mnemonic::Sbc
            | Mnemonic::And
            | Mnemonic::Ora
            | Mnemonic::Eor => self.calculated(mnemonic, v),
            Mnemonic::Cmp
            | Mnemonic::Cpx
            | Mnemonic::Cpy
            | Mnemonic::Bit => self.tested(mnemonic, v),
            Mnemonic::Anc
            | Mnemonic::Alr
            | Mnemonic::Arr
            | Mnemonic::Axs => self.masked(mnemonic, v),
            _ => self,
        }
    }

    /// The registers after an instruction that works on them alone.
    #[verifier::opaque]
    pub open spec fn registers_moved(self, mnemonic: Mnemonic) -> CpuModel {
        match mnemonic {
            Mnemonic::Tax => CpuModel { x: self.a, status: self.status.judged(self.a), ..self },
            Mnemonic::Tay => CpuModel { y: self.a, status: self.status.judged(self.a), ..self },
            Mnemonic::Txa => CpuModel { a: self.x, status: self.status.judged(self.x), ..self },
            Mnemonic::Tya => CpuModel { a: self.y, status: self.status.judged(self.y), ..self },
            Mnemonic::Tsx => CpuModel { x: self.sp, status: self.status.judged(self.sp), ..self },
            Mnemonic::Inx => CpuModel { x: self.x.wrapping_add(1), status: self.status.judged(self.x.wrapping_add(1)), ..self },
            Mnemonic::Iny => CpuModel { y: self.y.wrapping_add(1), status: self.status.judged(self.y.wrapping_add(1)), ..self },
            Mnemonic::Dex => CpuModel { x: self.x.wrapping_sub(1), status: self.status.judged(self.x.wrapping_sub(1)), ..self },
            Mnemonic::Dey => CpuModel { y: self.y.wrapping_sub(1), status: self.status.judged(self.y.wrapping_sub(1)), ..self },
            Mnemonic::Txs => CpuModel { sp: self.x, ..self },
            Mnemonic::Clc => CpuModel { status: self.status.with(0x01, false), ..self },
            Mnemonic::Sec => CpuModel { status: self.status.with(0x01, true), ..self },
            Mnemonic::Cli => CpuModel { status: self.status.with(0x04, false), ..self },
            Mnemonic::Sei => CpuModel { status: self.status.with(0x04, true), ..self },
            Mnemonic::Clv => CpuModel { status: self.status.with(0x40, false), ..self },
            Mnemonic::Cld => CpuModel { status: self.status.with(0x08, false), ..self },
            Mnemonic::Sed => CpuModel { status: self.status.with(0x08, true), ..self },
            Mnemonic::Jam => CpuModel { jammed: true, ..self },
            _ => self,
        }
    }

    /// What an instruction that writes, writes.
    pub open spec fn stored(self, mnemonic: Mnemonic, addr: u16) -> u8 {
        match mnemonic {
            Mnemonic::Sta => self.a,
            Mnemonic::Stx => self.x,
            Mnemonic::Sty => self.y,
            Mnemonic::Shy => self.y & ((page(addr.wrapping_sub(self.x as u16)) + 1) % 256) as u8,
            Mnemonic::Shx => self.x & ((page(addr.wrapping_sub(self.y as u16)) + 1) % 256) as u8,
            _ => self.a & self.x,
        }
    }

    /// Where it writes. SHY and SHX put the value in place of the page where the index left it.
    pub open spec fn target(self, mnemonic: Mnemonic, addr: u16) -> u16 {
        let index = if mnemonic == Mnemonic::Shy {
            self.x
        } else if mnemonic == Mnemonic::Shx {
            self.y
        } else {
            0
        };
        if page(addr.wrapping_sub(index as u16)) != page(addr) {
            (self.stored(mnemonic, addr) * 256 + addr % 256) as u16
        } else {
            addr
        }
    }

    /// What a shift, increment or decrement makes of `v`.
    pub open spec fn changed(self, mnemonic: Mnemonic, v: u8) -> u8 {
        match mnemonic {
            Mnemonic::Inc | Mnemonic::Isb => v.wrapping_add(1),
            Mnemonic::Dec | Mnemonic::Dcp => v.wrapping_sub(1),
            Mnemonic::Asl | Mnemonic::Slo => v << 1,
            Mnemonic::Lsr | Mnemonic::Sre => v >> 1,
            Mnemonic::Rol | Mnemonic::Rla => (v << 1) | bit_of(self.carry()),
            _ => (v >> 1) | (bit_of(self.carry()) << 7),
        }
    }

    /// The flags after it.
    pub open spec fn change_judged(self, mnemonic: Mnemonic, v: u8) -> CpuModel {
        let out = self.changed(mnemonic, v);
        CpuModel {
            status: match mnemonic {
                Mnemonic::Inc
                | Mnemonic::Isb
                | Mnemonic::Dec
                | Mnemonic::Dcp => self.status.judged(out),
                Mnemonic::Asl
                | Mnemonic::Slo
                | Mnemonic::Rol
                | Mnemonic::Rla => self.status.judged_with_carry(v & 0x80 != 0, out),
                _ => self.status.judged_with_carry(v & 0x01 != 0, out),
            },
            ..self
        }
    }

    /// The undocumented instructions go on with the accumulator and the changed value.
    pub open spec fn change_combined(self, mnemonic: Mnemonic, out: u8) -> CpuModel {
        match mnemonic {
            Mnemonic::Dcp => self.compared(self.a, out),
            Mnemonic::Isb => self.added(out ^ 0xFF),
            Mnemonic::Slo => self.with_a(self.a | out),
            Mnemonic::Rla => self.with_a(self.a & out),
            Mnemonic::Sre => self.with_a(self.a ^ out),
            Mnemonic::Rra => self.added(out),
            _ => self,
        }
    }

    /// The CPU after an instruction that changes memory or the accumulator.
    #[verifier::opaque]
    pub open spec fn modified(self, mnemonic: Mnemonic, mode: AddrMode, addr: u16) -> CpuModel {
        if mode == AddrMode::Accumulator {
            let out = self.changed(mnemonic, self.a);
            CpuModel { a: out, ..self.change_judged(mnemonic, self.a) }
        } else {
            let (c, v) = self.reading(addr);
            let out = c.changed(mnemonic, v);
            let d = c.change_judged(mnemonic, v);
            d.on(d.bus.rewritten(addr, v, out)).change_combined(mnemonic, out)
        }
    }

    /// The flags that come back from the stack.
    pub open spec fn with_flags(self, raw: u8) -> CpuModel {
        CpuModel {
            status: StatusFlags { raw }.with(0x10, false).with(0x20, true),
            ..self
        }
    }

    /// The flags as PHP and BRK push them.
    pub open spec fn pushed_flags(self) -> u8 {
        self.status.with(0x10, true).with(0x20, true).raw
    }

    #[verifier::opaque]
    pub open spec fn stacked(self, mnemonic: Mnemonic) -> CpuModel {
        match mnemonic {
            Mnemonic::Pha => self.pushed(self.a),
            Mnemonic::Php => self.pushed(self.pushed_flags()),
            Mnemonic::Pla => {
                let (c, v) = self.popping();
                c.with_a(v)
            },
            _ => {
                let (c, v) = self.popping();
                c.with_flags(v)
            },
        }
    }

    /// Whether a branch is taken.
    pub open spec fn takes(self, mnemonic: Mnemonic) -> bool {
        match mnemonic {
            Mnemonic::Bcc => !self.status.has(0x01),
            Mnemonic::Bcs => self.status.has(0x01),
            Mnemonic::Beq => self.status.has(0x02),
            Mnemonic::Bne => !self.status.has(0x02),
            Mnemonic::Bmi => self.status.has(0x80),
            Mnemonic::Bpl => !self.status.has(0x80),
            Mnemonic::Bvc => !self.status.has(0x40),
            Mnemonic::Bvs => self.status.has(0x40),
            _ => false,
        }
    }

    /// A branch: one cycle more where it is taken, two where that leaves the page.
    pub open spec fn branching(self, mnemonic: Mnemonic, target: u16) -> (CpuModel, u8) {
        if !self.takes(mnemonic) {
            (self, 0)
        } else {
            (CpuModel { pc: target, ..self }, if page(self.pc) != page(target) { 2 } else { 1 })
        }
    }

    #[verifier::opaque]
    pub open spec fn jumped(self, mnemonic: Mnemonic, addr: u16) -> CpuModel {
        match mnemonic {
            Mnemonic::Jmp => CpuModel { pc: addr, ..self },
            Mnemonic::Jsr => CpuModel { pc: addr, ..self.pushed_word(self.pc.wrapping_sub(1)) },
            Mnemonic::Rts => {
                let (c, ret) = self.popping_word();
                CpuModel { pc: ret.wrapping_add(1), ..c }
            },
            Mnemonic::Rti => {
                let (c, flags) = self.popping();
                let (d, ret) = c.with_flags(flags).popping_word();
                CpuModel { pc: ret, ..d }
            },
            _ => {
                let (c, target) = self.pushed_word(self.pc.wrapping_add(1)).pushed(
                    self.pushed_flags(),
                ).reading_word(0xFFFE, 0xFFFF);
                CpuModel { pc: target, status: self.status.with(0x04, true), ..c }
            },
        }
    }

    /// An instruction with its operand at `addr`: the CPU afterwards, and the cycles that a branch
    /// adds.
    #[verifier::opaque]
    pub open spec fn executing(self, mnemonic: Mnemonic, mode: AddrMode, addr: u16) -> (
        CpuModel,
        u8,
    ) {
        match kind(mnemonic) {
            Kind::Reads => if mode == AddrMode::Implied {
                (self, 0)
            } else {
                let (c, v) = self.reading(addr);
                (c.value_applied(mnemonic, v), 0)
            },
            Kind::Writes => (
                self.on(
                    self.bus.written(
                        self.target(mnemonic, addr),
                        self.stored(mnemonic, addr),
                        false,
                    ),
                ),
                0,
            ),
            Kind::Modifies => (self.modified(mnemonic, mode, addr), 0),
            Kind::Registers => (self.registers_moved(mnemonic), 0),
            Kind::Stacks => (self.stacked(mnemonic), 0),
            Kind::Branches => self.branching(mnemonic, addr),
            Kind::Jumps => (self.jumped(mnemonic, addr), 0),
        }
    }
}

impl Cpu {
    fn set_a(&mut self, value: u8)
        ensures
            final(self)@ == old(self)@.with_a(value),
    {
        self.a = value;
        self.status.set_zero_negative(value);
    }

    fn adc(&mut self, value: u8)
        ensures
            final(self)@ == old(self)@.added(value),
    {
        let carry: u16 = if self.status.contains(StatusFlags::CARRY) { 1 } else { 0 };
        let sum: u16 = self.a as u16 + value as u16 + carry;
        let result: u8 = (sum % 256) as u8;
        proof {
            lemma_overflow_bits(self.a, value, result);
        }
        let overflow: bool = (!(self.a ^ value) & (self.a ^ result)) & 0x80 != 0;
        self.status.set(StatusFlags::CARRY, sum > 0xFF);
        self.status.set(StatusFlags::OVERFLOW, overflow);
        self.set_a(result);
    }

    fn compare(&mut self, reg: u8, value: u8)
        ensures
            final(self)@ == old(self)@.compared(reg, value),
    {
        self.status.set(StatusFlags::CARRY, reg >= value);
        self.status.set_zero_negative(reg.wrapping_sub(value));
    }

    fn carry_bit(&self) -> (bit: u8)
        ensures
            bit == bit_of(self@.carry()),
    {
        if self.status.contains(StatusFlags::CARRY) {
            1
        } else {
            0
        }
    }

    fn asl_value(&mut self, value: u8) -> (out: u8)
        ensures
            out == value << 1,
            final(self)@ == (CpuModel {
                status: old(self)@.status.judged_with_carry(value & 0x80 != 0, out),
                ..old(self)@
            }),
    {
        let out: u8 = value << 1;
        self.status.set(StatusFlags::CARRY, value & 0x80 != 0);
        self.status.set_zero_negative(out);
        out
    }

    fn lsr_value(&mut self, value: u8) -> (out: u8)
        ensures
            out == value >> 1,
            final(self)@ == (CpuModel {
                status: old(self)@.status.judged_with_carry(value & 0x01 != 0, out),
                ..old(self)@
            }),
    {
        let out: u8 = value >> 1;
        self.status.set(StatusFlags::CARRY, value & 0x01 != 0);
        self.status.set_zero_negative(out);
        out
    }

    fn rol_value(&mut self, value: u8) -> (out: u8)
        ensures
            out == (value << 1) | bit_of(old(self)@.carry()),
            final(self)@ == (CpuModel {
                status: old(self)@.status.judged_with_carry(value & 0x80 != 0, out),
                ..old(self)@
            }),
    {
        let out: u8 = (value << 1) | self.carry_bit();
        self.status.set(StatusFlags::CARRY, value & 0x80 != 0);
        self.status.set_zero_negative(out);
        out
    }

    fn ror_value(&mut self, value: u8) -> (out: u8)
        ensures
            out == (value >> 1) | (bit_of(old(self)@.carry()) << 7),
            final(self)@ == (CpuModel {
                status: old(self)@.status.judged_with_carry(value & 0x01 != 0, out),
                ..old(self)@
            }),
    {
        let out: u8 = (value >> 1) | (self.carry_bit() << 7);
        self.status.set(StatusFlags::CARRY, value & 0x01 != 0);
        self.status.set_zero_negative(out);
        out
    }

    /// ARR, once the accumulator is masked.
    fn arr(&mut self)
        ensures
            final(self)@ == old(self)@.rotated_sum(old(self)@.a),
    {
        let out: u8 = (self.a >> 1) | (self.carry_bit() << 7);
        self.set_a(out);
        let bit6: u8 = (out >> 6) & 1;
        let bit5: u8 = (out >> 5) & 1;
        self.status.set(StatusFlags::CARRY, bit6 == 1);
        self.status.set(StatusFlags::OVERFLOW, bit6 ^ bit5 == 1);
    }

    fn load(&mut self, mnemonic: Mnemonic, v: u8)
        ensures
            final(self)@ == old(self)@.loaded(mnemonic, v),
            final(self)@.bus == old(self)@.bus,
    {
        reveal(CpuModel::loaded);
        match mnemonic {
            Mnemonic::Lda => {
                self.a = v;
                self.status.set_zero_negative(v);
            },
            Mnemonic::Ldx => {
                self.x = v;
                self.status.set_zero_negative(v);
            },
            Mnemonic::Ldy => {
                self.y = v;
                self.status.set_zero_negative(v);
            },
            Mnemonic::Lax => {
                self.set_a(v);
                self.x = v;
            },
            Mnemonic::Lxa => {
                let out: u8 = (self.a | LXA_MAGIC) & v;
                self.set_a(out);
                self.x = out;
            },
            _ => {},
        }
    }

    fn calculate(&mut self, mnemonic: Mnemonic, v: u8)
        ensures
            final(self)@ == old(self)@.calculated(mnemonic, v),
            final(self)@.bus == old(self)@.bus,
    {
        reveal(CpuModel::calculated);
        match mnemonic {
            Mnemonic::Adc => {
                self.adc(v);
            },
            Mnemonic::Sbc => {
                self.adc(v ^ 0xFF);
            },
            Mnemonic::And => {
                self.set_a(self.a & v);
            },
            Mnemonic::Ora => {
                self.set_a(self.a | v);
            },
            Mnemonic::Eor => {
                self.set_a(self.a ^ v);
            },
            _ => {},
        }
    }

    fn test(&mut self, mnemonic: Mnemonic, v: u8)
        ensures
            final(self)@ == old(self)@.tested(mnemonic, v),
            final(self)@.bus == old(self)@.bus,
    {
        reveal(CpuModel::tested);
        match mnemonic {
            Mnemonic::Cmp => {
                self.compare(self.a, v);
            },
            Mnemonic::Cpx => {
                self.compare(self.x, v);
            },
            Mnemonic::Cpy => {
                self.compare(self.y, v);
            },
            Mnemonic::Bit => {
                self.status.set(StatusFlags::ZERO, self.a & v == 0);
                self.status.set(StatusFlags::OVERFLOW, v & 0x40 != 0);
                self.status.set(StatusFlags::NEGATIVE, v & 0x80 != 0);
            },
            _ => {},
        }
    }

    fn mask(&mut self, mnemonic: Mnemonic, v: u8)
        ensures
            final(self)@ == old(self)@.masked(mnemonic, v),
            final(self)@.bus == old(self)@.bus,
    {
        reveal(CpuModel::masked);
        match mnemonic {
            Mnemonic::Anc => {
                self.set_a(self.a & v);
                let negative: bool = self.status.contains(StatusFlags::NEGATIVE);
                self.status.set(StatusFlags::CARRY, negative);
            },
            Mnemonic::Alr => {
                let masked: u8 = self.a & v;
                self.a = self.lsr_value(masked);
            },
            Mnemonic::Arr => {
                self.a = self.a & v;
                self.arr();
            },
            Mnemonic::Axs => {
                let base: u8 = self.a & self.x;
                self.status.set(StatusFlags::CARRY, base >= v);
                self.x = base.wrapping_sub(v);
                self.status.set_zero_negative(self.x);
            },
            _ => {},
        }
    }

    fn apply_value(&mut self, mnemonic: Mnemonic, v: u8)
        ensures
            final(self)@ == old(self)@.value_applied(mnemonic, v),
            final(self)@.bus == old(self)@.bus,
    {
        reveal(CpuModel::value_applied);
        match mnemonic {
            Mnemonic::Lda
            | Mnemonic::Ldx
            | Mnemonic::Ldy
            | Mnemonic::Lax
            | Mnemonic::Lxa => self.load(mnemonic, v),
            Mnemonic::Adc
            | Mnemonic::Sbc
            | Mnemonic::And
            | Mnemonic::Ora
            | Mnemonic::Eor => self.calculate(mnemonic, v),
            Mnemonic::Cmp
            | Mnemonic::Cpx
            | Mnemonic::Cpy
            | Mnemonic::Bit => self.test(mnemonic, v),
            Mnemonic::Anc
            | Mnemonic::Alr
            | Mnemonic::Arr
            | Mnemonic::Axs => self.mask(mnemonic, v),
            _ => {},
        }
    }

    fn move_registers(&mut self, mnemonic: Mnemonic)
        ensures
            final(self)@ == old(self)@.registers_moved(mnemonic),
            final(self)@.bus == old(self)@.bus,
    {
        reveal(CpuModel::registers_moved);
        match mnemonic {
            Mnemonic::Tax => {
                self.x = self.a;
                self.status.set_zero_negative(self.x);
            },
            Mnemonic::Tay => {
                self.y = self.a;
                self.status.set_zero_negative(self.y);
            },
            Mnemonic::Txa => {
                self.a = self.x;
                self.status.set_zero_negative(self.a);
            },
            Mnemonic::Tya => {
                self.a = self.y;
                self.status.set_zero_negative(self.a);
            },
            Mnemonic::Tsx => {
                self.x = self.sp;
                self.status.set_zero_negative(self.x);
            },
            Mnemonic::Inx => {
                self.x = self.x.wrapping_add(1);
                self.status.set_zero_negative(self.x);
            },
            Mnemonic::Iny => {
                self.y = self.y.wrapping_add(1);
                self.status.set_zero_negative(self.y);
            },
            Mnemonic::Dex => {
                self.x = self.x.wrapping_sub(1);
                self.status.set_zero_negative(self.x);
            },
            Mnemonic::Dey => {
                self.y = self.y.wrapping_sub(1);
                self.status.set_zero_negative(self.y);
            },
            Mnemonic::Txs => {
                self.sp = self.x;
            },
            Mnemonic::Clc => {
                self.status.remove(StatusFlags::CARRY);
            },
            Mnemonic::Sec => {
                self.status.insert(StatusFlags::CARRY);
            },
            Mnemonic::Cli => {
                self.status.remove(StatusFlags::INTERRUPT);
            },
            Mnemonic::Sei => {
                self.status.insert(StatusFlags::INTERRUPT);
            },
            Mnemonic::Clv => {
                self.status.remove(StatusFlags::OVERFLOW);
            },
            Mnemonic::Cld => {
                self.status.remove(StatusFlags::DECIMAL);
            },
            Mnemonic::Sed => {
                self.status.insert(StatusFlags::DECIMAL);
            },
            Mnemonic::Jam => {
                self.jammed = true;
            },
            _ => {},
        }
    }

    fn store(&mut self, mnemonic: Mnemonic, addr: u16)
        requires
            old(self)@.bus.wf(),
        ensures
            final(self)@ == old(self)@.on(
                old(self)@.bus.written(
                    old(self)@.target(mnemonic, addr),
                    old(self)@.stored(mnemonic, addr),
                    false,
                ),
            ),
            old(self)@.bus.leads_to(final(self)@.bus),
    {
        match mnemonic {
            Mnemonic::Sta => self.bus.write(addr, self.a),
            Mnemonic::Stx => self.bus.write(addr, self.x),
            Mnemonic::Sty => self.bus.write(addr, self.y),
            Mnemonic::Shy => {
                let base: u16 = addr.wrapping_sub(self.x as u16);
                self.store_and_high(base, addr, self.y);
            },
            Mnemonic::Shx => {
                let base: u16 = addr.wrapping_sub(self.y as u16);
                self.store_and_high(base, addr, self.x);
            },
            _ => self.bus.write(addr, self.a & self.x),
        }
    }

    /// SHY and SHX: writes the register masked with the page of the base plus one.
    fn store_and_high(&mut self, base: u16, addr: u16, reg: u8)
        requires
            old(self)@.bus.wf(),
        ensures
            ({
                let value = reg & ((page(base) + 1) % 256) as u8;
                let target = if page(base) != page(addr) {
                    (value * 256 + addr % 256) as u16
                } else {
                    addr
                };
                final(self)@ == old(self)@.on(old(self)@.bus.written(target, value, false))
            }),
            old(self)@.bus.leads_to(final(self)@.bus),
    {
        let value: u8 = reg & ((base / 256 + 1) % 256) as u8;
        let target: u16 = if page_crossed(base, addr) {
            value as u16 * 256 + addr % 256
        } else {
            addr
        };
        self.bus.write(target, value);
    }

    /// Changes a value as the instruction does, with the flags.
    fn change(&mut self, mnemonic: Mnemonic, v: u8) -> (out: u8)
        requires
            kind(mnemonic) is Modifies,
        ensures
            out == old(self)@.changed(mnemonic, v),
            final(self)@ == old(self)@.change_judged(mnemonic, v),
            final(self)@.bus == old(self)@.bus,
    {
        match mnemonic {
            Mnemonic::Inc | Mnemonic::Isb => {
                let out: u8 = v.wrapping_add(1);
                self.status.set_zero_negative(out);
                out
            },
            Mnemonic::Dec | Mnemonic::Dcp => {
                let out: u8 = v.wrapping_sub(1);
                self.status.set_zero_negative(out);
                out
            },
            Mnemonic::Asl | Mnemonic::Slo => self.asl_value(v),
            Mnemonic::Lsr | Mnemonic::Sre => self.lsr_value(v),
            Mnemonic::Rol | Mnemonic::Rla => self.rol_value(v),
            _ => self.ror_value(v),
        }
    }

    /// What the undocumented instructions do with the changed value.
    fn combine(&mut self, mnemonic: Mnemonic, out: u8)
        ensures
            final(self)@ == old(self)@.change_combined(mnemonic, out),
            final(self)@.bus == old(self)@.bus,
    {
        match mnemonic {
            Mnemonic::Dcp => self.compare(self.a, out),
            Mnemonic::Isb => self.adc(out ^ 0xFF),
            Mnemonic::Slo => self.set_a(self.a | out),
            Mnemonic::Rla => self.set_a(self.a & out),
            Mnemonic::Sre => self.set_a(self.a ^ out),
            Mnemonic::Rra => self.adc(out),
            _ => {},
        }
    }

    fn modify(&mut self, mnemonic: Mnemonic, mode: AddrMode, addr: u16)
        requires
            old(self)@.bus.wf(),
            kind(mnemonic) is Modifies,
        ensures
            final(self)@ == old(self)@.modified(mnemonic, mode, addr),
            old(self)@.bus.leads_to(final(self)@.bus),
    {
        reveal(CpuModel::modified);
        if mode == AddrMode::Accumulator {
            let v: u8 = self.a;
            self.a = self.change(mnemonic, v);
        } else {
            let v: u8 = self.read(addr);
            let out: u8 = self.change(mnemonic, v);
            self.bus.write_rmw(addr, v, out);
            self.combine(mnemonic, out);
        }
    }

    fn restore_flags(&mut self, raw: u8)
        ensures
            final(self)@ == old(self)@.with_flags(raw),
    {
        let mut flags: StatusFlags = StatusFlags::from_bits_truncate(raw);
        flags.remove(StatusFlags::BREAK);
        flags.insert(StatusFlags::UNUSED);
        self.status = flags;
    }

    fn flags_to_push(&self) -> (raw: u8)
        ensures
            raw == self@.pushed_flags(),
    {
        let mut flags: StatusFlags = self.status;
        flags.insert(StatusFlags::BREAK);
        flags.insert(StatusFlags::UNUSED);
        flags.bits()
    }

    fn use_stack(&mut self, mnemonic: Mnemonic)
        requires
            old(self)@.bus.wf(),
        ensures
            final(self)@ == old(self)@.stacked(mnemonic),
            old(self)@.bus.leads_to(final(self)@.bus),
    {
        reveal(CpuModel::stacked);
        match mnemonic {
            Mnemonic::Pha => self.push_u8(self.a),
            Mnemonic::Php => {
                let flags: u8 = self.flags_to_push();
                self.push_u8(flags);
            },
            Mnemonic::Pla => {
                let v: u8 = self.pop_u8();
                self.set_a(v);
            },
            _ => {
                let v: u8 = self.pop_u8();
                self.restore_flags(v);
            },
        }
    }

    fn branch_taken(&self, mnemonic: Mnemonic) -> (yes: bool)
        ensures
            yes == self@.takes(mnemonic),
    {
        match mnemonic {
            Mnemonic::Bcc => !self.status.contains(StatusFlags::CARRY),
            Mnemonic::Bcs => self.status.contains(StatusFlags::CARRY),
            Mnemonic::Beq => self.status.contains(StatusFlags::ZERO),
            Mnemonic::Bne => !self.status.contains(StatusFlags::ZERO),
            Mnemonic::Bmi => self.status.contains(StatusFlags::NEGATIVE),
            Mnemonic::Bpl => !self.status.contains(StatusFlags::NEGATIVE),
            Mnemonic::Bvc => !self.status.contains(StatusFlags::OVERFLOW),
            Mnemonic::Bvs => self.status.contains(StatusFlags::OVERFLOW),
            _ => false,
        }
    }

    fn branch(&mut self, mnemonic: Mnemonic, target: u16) -> (extra: u8)
        ensures
            (final(self)@, extra) == old(self)@.branching(mnemonic, target),
            final(self)@.bus == old(self)@.bus,
            extra <= 2,
    {
        if !self.branch_taken(mnemonic) {
            return 0;
        }
        let extra: u8 = if page_crossed(self.pc, target) { 2 } else { 1 };
        self.pc = target;
        extra
    }

    fn brk(&mut self)
        requires
            old(self)@.bus.wf(),
        ensures
            final(self)@ == old(self)@.jumped(Mnemonic::Brk, 0),
            old(self)@.bus.leads_to(final(self)@.bus),
    {
        reveal(CpuModel::jumped);
        self.push_u16(self.pc.wrapping_add(1));
        let flags: u8 = self.flags_to_push();
        self.push_u8(flags);
        self.status.insert(StatusFlags::INTERRUPT);
        self.pc = self.read_u16(IRQ_VECTOR, IRQ_VECTOR + 1);
    }

    fn jump(&mut self, mnemonic: Mnemonic, addr: u16)
        requires
            old(self)@.bus.wf(),
            kind(mnemonic) is Jumps,
        ensures
            final(self)@ == old(self)@.jumped(mnemonic, addr),
            old(self)@.bus.leads_to(final(self)@.bus),
    {
        reveal(CpuModel::jumped);
        match mnemonic {
            Mnemonic::Jmp => {
                self.pc = addr;
            },
            Mnemonic::Jsr => {
                self.push_u16(self.pc.wrapping_sub(1));
                self.pc = addr;
            },
            Mnemonic::Rts => {
                let ret: u16 = self.pop_u16();
                self.pc = ret.wrapping_add(1);
            },
            Mnemonic::Rti => {
                let flags: u8 = self.pop_u8();
                self.restore_flags(flags);
                self.pc = self.pop_u16();
            },
            _ => self.brk(),
        }
    }

    /// Does what the instruction does, and returns the cycles that a branch adds.
    pub(super) fn execute(&mut self, mnemonic: Mnemonic, mode: AddrMode, addr: u16) -> (extra: u8)
        requires
            old(self)@.bus.wf(),
        ensures
            (final(self)@, extra) == old(self)@.executing(mnemonic, mode, addr),
            old(self)@.bus.leads_to(final(self)@.bus),
            extra <= 2,
    {
        reveal(CpuModel::executing);
        match kind_of(mnemonic) {
            Kind::Reads => {
                if mode != AddrMode::Implied {
                    let v: u8 = self.read(addr);
                    self.apply_value(mnemonic, v);
                }
                0
            },
            Kind::Writes => {
                self.store(mnemonic, addr);
                0
            },
            Kind::Modifies => {
                self.modify(mnemonic, mode, addr);
                0
            },
            Kind::Registers => {
                self.move_registers(mnemonic);
                0
            },
            Kind::Stacks => {
                self.use_stack(mnemonic);
                0
            },
            Kind::Branches => self.branch(mnemonic, addr),
            Kind::Jumps => {
                self.jump(mnemonic, addr);
                0
            },
        }
    }
}

} // verus!

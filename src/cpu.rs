use vstd::prelude::*;

use crate::alu::{
    add16, add_carry, and, daa, dec8, inc8, or, rl, rlc, rr, rrc, sla, spec_add, spec_and, spec_daa,
    spec_or, spec_rl, spec_rlc, spec_rr, spec_rrc, spec_sla, spec_sra, spec_srl, spec_sub,
    spec_swap, spec_xor, sra, srl, sub16, sub_borrow, swap, wrap16, wrap8, xor, AluOut,
};
use crate::device::IOHandler;
use crate::inst::{
    decode, decode_cb, inst_cb_time, inst_time, is_unassigned, spec_inst_cb_time,
    spec_inst_time, Condition, Instruction, Operand, Reg16Index, Reg8Index,
};
use crate::mmu::{echo, lemma_unrouted_read_after_write, BusView, MemoryBus};
use crate::register::{
    high_byte, lemma_pair_split, lemma_with_flags, low_byte, pair, Flag, Registers,
};

verus! {

/// The processor: its registers, the interrupt master enable, and whether it is halted.
#[derive(Clone, Copy, Debug)]
pub struct CPU {
    pub reg: Registers,
    pub ime: bool,
    pub halt: bool,
}

/// A processor together with the state of the bus it runs on.
pub struct Machine<H: IOHandler> {
    pub cpu: CPU,
    pub bus: BusView<H>,
}

pub open spec fn machine<H: IOHandler>(cpu: CPU, bus: BusView<H>) -> Machine<H> {
    Machine { cpu, bus }
}

/// The word that a signed byte displacement adds to an address, modulo 2^16.
pub open spec fn signed_offset(d: u8) -> u16 {
    if d >= 128 {
        (d + 0xFF00int) as u16
    } else {
        d as u16
    }
}

/// The lowest set bit among the five interrupt bits of `pending`, or 5 if none is set.
pub open spec fn lowest_pending(pending: u8) -> u8 {
    if pending & 0x01 != 0 {
        0
    } else if pending & 0x02 != 0 {
        1
    } else if pending & 0x04 != 0 {
        2
    } else if pending & 0x08 != 0 {
        3
    } else if pending & 0x10 != 0 {
        4
    } else {
        5
    }
}

/// An instruction that the interpreter can carry out: it never stores into an immediate byte,
/// and its bit numbers are below 8.
pub open spec fn well_formed(inst: Instruction) -> bool {
    match inst {
        Instruction::LD(dest, _) => !(dest is Value8),
        Instruction::RLC(op) | Instruction::RRC(op) | Instruction::RL(op) | Instruction::RR(op)
        | Instruction::SLA(op) | Instruction::SRA(op) | Instruction::SWAP(op) | Instruction::SRL(
            op,
        ) => !(op is Value8),
        Instruction::BIT(n, _) => n < 8,
        Instruction::SET(n, op) | Instruction::RES(n, op) => n < 8 && !(op is Value8),
        _ => true,
    }
}

/// Every instruction of both tables can be carried out.
pub proof fn lemma_decoded_well_formed(byte: u8)
    ensures
        decode(byte) matches Some(i) ==> well_formed(i),
        decode_cb(byte) matches Some(i) ==> well_formed(i),
{
}


/// The value of a register pair.
pub open spec fn pair_value(reg: Registers, idx: Reg16Index) -> u16 {
    match idx {
        Reg16Index::AF => reg.spec_af(),
        Reg16Index::BC => reg.spec_bc(),
        Reg16Index::DE => reg.spec_de(),
        Reg16Index::HL | Reg16Index::HLP | Reg16Index::HLM => reg.spec_hl(),
        Reg16Index::SP => reg.sp,
    }
}

/// A pair that PUSH and POP name.
pub open spec fn stack_pair(idx: Reg16Index) -> bool {
    idx is AF || idx is BC || idx is DE || idx is HL
}

/// The four flags of F.
pub open spec fn flags_of(reg: Registers) -> (bool, bool, bool, bool) {
    (reg.flag(Flag::Z), reg.flag(Flag::S), reg.flag(Flag::H), reg.flag(Flag::C))
}

/// A holds the result of `o`, and F exactly its flags with the low nibble kept.
pub open spec fn holds_result(before: Registers, after: Registers, o: AluOut) -> bool {
    &&& after.a == o.value
    &&& flags_of(after) == (o.z, o.n, o.h, o.c)
    &&& after.f & 0x0F == before.f & 0x0F
}

/// ADD, ADC, SUB, SBC and CP set the flags exactly as the arithmetic table gives them for
/// A, the operand and the carry in (CP keeps A).
pub proof fn lemma_arith_flags<H: IOHandler>(m: Machine<H>, op: Operand)
    ensures
        ({
            let x = m.read_operand(op).1 as u8;
            let r = m.cpu.reg;
            let cin = r.flag(Flag::C);
            &&& holds_result(r, m.execute(Instruction::ADD(op)).cpu.reg, spec_add(r.a, x, false))
            &&& holds_result(r, m.execute(Instruction::ADC(op)).cpu.reg, spec_add(r.a, x, cin))
            &&& holds_result(r, m.execute(Instruction::SUB(op)).cpu.reg, spec_sub(r.a, x, false))
            &&& holds_result(r, m.execute(Instruction::SBC(op)).cpu.reg, spec_sub(r.a, x, cin))
            &&& flags_of(m.execute(Instruction::CP(op)).cpu.reg) == (
                spec_sub(r.a, x, false).z,
                true,
                spec_sub(r.a, x, false).h,
                spec_sub(r.a, x, false).c,
            )
            &&& m.execute(Instruction::CP(op)).cpu.reg.a == r.a
        }),
{
    let (m1, v) = m.read_operand(op);
    let r = m.cpu.reg;
    assert(m1.cpu.reg.a == r.a && m1.cpu.reg.f == r.f);
    let x = v as u8;
    let cin = r.flag(Flag::C);
    let o1 = spec_add(r.a, x, false);
    let o2 = spec_add(r.a, x, cin);
    let o3 = spec_sub(r.a, x, false);
    let o4 = spec_sub(r.a, x, cin);
    lemma_with_flags(r.f, o1.z, o1.n, o1.h, o1.c);
    lemma_with_flags(r.f, o2.z, o2.n, o2.h, o2.c);
    lemma_with_flags(r.f, o3.z, o3.n, o3.h, o3.c);
    lemma_with_flags(r.f, o4.z, o4.n, o4.h, o4.c);
}

/// PUSH rr then POP rr': rr' holds what rr held (through AF, with the low nibble of F
/// cleared) and SP is back where it was, when no device claims the two stack bytes.
pub proof fn lemma_push_pop<H: IOHandler>(m: Machine<H>, from: Reg16Index, to: Reg16Index)
    requires
        m.bus.wf(),
        stack_pair(from),
        stack_pair(to),
        m.bus.unrouted(wrap16(m.cpu.reg.sp - 1)),
        m.bus.unrouted(wrap16(m.cpu.reg.sp - 2)),
    ensures
        ({
            let after = m.execute(Instruction::PUSH(Operand::Register16(from))).execute(
                Instruction::POP(Operand::Register16(to)),
            );
            &&& pair_value(after.cpu.reg, to) == if to is AF {
                pair_value(m.cpu.reg, from) & 0xFFF0
            } else {
                pair_value(m.cpu.reg, from)
            }
            &&& after.cpu.reg.sp == m.cpu.reg.sp
        }),
{
    let sp = m.cpu.reg.sp;
    let v = pair_value(m.cpu.reg, from);
    let lo_at = wrap16(sp - 2);
    let hi_at = wrap16(sp - 1);
    assert(wrap16(lo_at + 1) == hi_at);
    assert(wrap16(lo_at + 2) == sp);
    assert(echo(lo_at) != echo(hi_at));
    let b1 = m.bus.write(lo_at, low_byte(v));
    lemma_unrouted_read_after_write(m.bus, lo_at, low_byte(v), lo_at);
    lemma_unrouted_read_after_write(m.bus, lo_at, low_byte(v), hi_at);
    lemma_unrouted_read_after_write(b1, hi_at, high_byte(v), lo_at);
    lemma_unrouted_read_after_write(b1, hi_at, high_byte(v), hi_at);
    let pushed = m.execute(Instruction::PUSH(Operand::Register16(from)));
    assert(pushed.cpu.reg.sp == lo_at);
    assert(pushed.read_word(lo_at) == pair(high_byte(v), low_byte(v)));
    lemma_pair_split(v);
    assert(pair(high_byte(v), (low_byte(v) & 0xF0) as u8) == v & 0xFFF0) by (bit_vector);
}

impl<H: IOHandler> Machine<H> {
    pub open spec fn with_reg(self, reg: Registers) -> Self {
        Machine { cpu: CPU { reg, ..self.cpu }, ..self }
    }

    pub open spec fn with_pc(self, pc: u16) -> Self {
        self.with_reg(Registers { pc, ..self.cpu.reg })
    }

    pub open spec fn with_sp(self, sp: u16) -> Self {
        self.with_reg(Registers { sp, ..self.cpu.reg })
    }

    pub open spec fn with_a(self, a: u8) -> Self {
        self.with_reg(Registers { a, ..self.cpu.reg })
    }

    pub open spec fn with_hl(self, v: u16) -> Self {
        self.with_reg(self.cpu.reg.with_hl(v))
    }

    pub open spec fn with_ime(self, ime: bool) -> Self {
        Machine { cpu: CPU { ime, ..self.cpu }, ..self }
    }

    /// One flag set or cleared, the rest of F kept.
    pub open spec fn flag(self, mask: Flag, on: bool) -> Self {
        self.with_reg(
            Registers {
                f: crate::register::with_flag(self.cpu.reg.f, mask.spec_mask(), on),
                ..self.cpu.reg
            },
        )
    }

    /// All four flags replaced.
    pub open spec fn flags(self, z: bool, n: bool, h: bool, c: bool) -> Self {
        self.with_reg(self.cpu.reg.with_flags(z, n, h, c))
    }

    /// A takes the result and F its four flags.
    pub open spec fn alu_a(self, o: AluOut) -> Self {
        self.with_a(o.value).flags(o.z, o.n, o.h, o.c)
    }

    pub open spec fn read8(self, address: u16) -> u8 {
        self.bus.read(address)
    }

    pub open spec fn write8(self, address: u16, value: u8) -> Self {
        Machine { bus: self.bus.write(address, value), ..self }
    }

    /// The little-endian word at `address`.
    pub open spec fn read_word(self, address: u16) -> u16 {
        pair(self.read8(wrap16(address + 1)), self.read8(address))
    }

    /// The byte at PC, with PC moved past it.
    pub open spec fn fetch(self) -> (Self, u8) {
        (self.with_pc(wrap16(self.cpu.reg.pc + 1)), self.read8(self.cpu.reg.pc))
    }

    /// The word at PC, with PC moved past it.
    pub open spec fn fetch16(self) -> (Self, u16) {
        (self.with_pc(wrap16(self.cpu.reg.pc + 2)), self.read_word(self.cpu.reg.pc))
    }

    /// The low byte goes to SP-2 and the high byte to SP-1; SP drops by two.
    pub open spec fn push(self, value: u16) -> Self {
        let sp = self.cpu.reg.sp;
        self.write8(wrap16(sp - 2), low_byte(value)).write8(
            wrap16(sp - 1),
            high_byte(value),
        ).with_sp(wrap16(sp - 2))
    }

    /// The word at SP; SP rises by two.
    pub open spec fn pop(self) -> (Self, u16) {
        let sp = self.cpu.reg.sp;
        (self.with_sp(wrap16(sp + 2)), self.read_word(sp))
    }

    pub open spec fn condition(self, cond: Condition) -> bool {
        self.cpu.holds(cond)
    }

    /// The value an operand reads, and the machine after reading it (immediates advance PC,
    /// HL+ and HL- step HL).
    pub open spec fn read_operand(self, op: Operand) -> (Self, u16) {
        let r = self.cpu.reg;
        match op {
            Operand::Register16(idx) => match idx {
                Reg16Index::AF => (self, r.spec_af()),
                Reg16Index::BC => (self, r.spec_bc()),
                Reg16Index::DE => (self, r.spec_de()),
                Reg16Index::HL => (self, r.spec_hl()),
                Reg16Index::HLP => (self.with_hl(wrap16(r.spec_hl() + 1)), r.spec_hl()),
                Reg16Index::HLM => (self.with_hl(wrap16(r.spec_hl() - 1)), r.spec_hl()),
                Reg16Index::SP => (self, r.sp),
            },
            Operand::Value16 => self.fetch16(),
            Operand::Register8(idx) => (
                self,
                match idx {
                    Reg8Index::A => r.a as u16,
                    Reg8Index::B => r.b as u16,
                    Reg8Index::C => r.c as u16,
                    Reg8Index::D => r.d as u16,
                    Reg8Index::E => r.e as u16,
                    Reg8Index::H => r.h as u16,
                    Reg8Index::L => r.l as u16,
                    Reg8Index::HL => self.read8(r.spec_hl()) as u16,
                },
            ),
            Operand::Value8 => (self.fetch().0, self.fetch().1 as u16),
        }
    }

    /// A byte stored through an operand: a register, or the memory that a register pair or
    /// an immediate address points to.
    pub open spec fn write_operand8(self, op: Operand, value: u8) -> Self {
        let r = self.cpu.reg;
        match op {
            Operand::Register16(idx) => match idx {
                Reg16Index::AF => self.write8(r.spec_af(), value),
                Reg16Index::BC => self.write8(r.spec_bc(), value),
                Reg16Index::DE => self.write8(r.spec_de(), value),
                Reg16Index::HL => self.write8(r.spec_hl(), value),
                Reg16Index::HLP => self.write8(r.spec_hl(), value).with_hl(
                    wrap16(r.spec_hl() + 1),
                ),
                Reg16Index::HLM => self.write8(r.spec_hl(), value).with_hl(
                    wrap16(r.spec_hl() - 1),
                ),
                Reg16Index::SP => self.write8(r.sp, value),
            },
            Operand::Value16 => self.fetch16().0.write8(self.fetch16().1, value),
            Operand::Register8(idx) => match idx {
                Reg8Index::A => self.with_reg(Registers { a: value, ..r }),
                Reg8Index::B => self.with_reg(Registers { b: value, ..r }),
                Reg8Index::C => self.with_reg(Registers { c: value, ..r }),
                Reg8Index::D => self.with_reg(Registers { d: value, ..r }),
                Reg8Index::E => self.with_reg(Registers { e: value, ..r }),
                Reg8Index::H => self.with_reg(Registers { h: value, ..r }),
                Reg8Index::L => self.with_reg(Registers { l: value, ..r }),
                Reg8Index::HL => self.write8(r.spec_hl(), value),
            },
            Operand::Value8 => self,
        }
    }

    /// A word stored through an operand: a register pair, or two bytes at an immediate
    /// address.
    pub open spec fn write_operand16(self, op: Operand, value: u16) -> Self {
        let r = self.cpu.reg;
        match op {
            Operand::Register16(idx) => match idx {
                Reg16Index::AF => self.with_reg(r.with_af(value)),
                Reg16Index::BC => self.with_reg(r.with_bc(value)),
                Reg16Index::DE => self.with_reg(r.with_de(value)),
                Reg16Index::HL | Reg16Index::HLP | Reg16Index::HLM => self.with_hl(value),
                Reg16Index::SP => self.with_sp(value),
            },
            Operand::Value16 => {
                let (m, address) = self.fetch16();
                m.write8(address, low_byte(value)).write8(
                    wrap16(address + 1),
                    high_byte(value),
                )
            },
            _ => self,
        }
    }

    /// The effect of one instruction, its opcode bytes already fetched.
    pub open spec fn execute(self, inst: Instruction) -> Self {
        let r = self.cpu.reg;
        match inst {
            Instruction::NOP | Instruction::STOP | Instruction::PREFIX => self,
            Instruction::HALT => Machine { cpu: CPU { halt: true, ..self.cpu }, ..self },
            Instruction::DI => self.with_ime(false),
            Instruction::EI => self.with_ime(true),
            Instruction::JR(cond) => {
                let (m, d) = self.fetch();
                if m.condition(cond) {
                    m.with_pc(wrap16(m.cpu.reg.pc + signed_offset(d)))
                } else {
                    m
                }
            },
            Instruction::JP(cond) => {
                let (m, dest) = self.fetch16();
                if m.condition(cond) {
                    m.with_pc(dest)
                } else {
                    m
                }
            },
            Instruction::JPHL => self.with_pc(r.spec_hl()),
            Instruction::RET(cond) => {
                if self.condition(cond) {
                    let (m, v) = self.pop();
                    m.with_pc(v)
                } else {
                    self
                }
            },
            Instruction::RETI => {
                let (m, v) = self.with_ime(true).pop();
                m.with_pc(v)
            },
            Instruction::CALL(cond) => {
                let (m, dest) = self.fetch16();
                if m.condition(cond) {
                    m.push(m.cpu.reg.pc).with_pc(dest)
                } else {
                    m
                }
            },
            Instruction::PUSH(op) => {
                let (m, v) = self.read_operand(op);
                m.push(v)
            },
            Instruction::POP(op) => {
                let (m, v) = self.pop();
                m.write_operand16(op, v)
            },
            Instruction::LD(dest, src) => {
                let (m, v) = self.read_operand(src);
                let byte = if src is Register16 || src is Value16 {
                    m.read8(v)
                } else {
                    v as u8
                };
                m.write_operand8(dest, byte)
            },
            Instruction::LD16(dest, src) => {
                let (m, v) = self.read_operand(src);
                m.write_operand16(dest, v)
            },
            Instruction::LDOffset(dest, src) => {
                let (m, v) = self.read_operand(src);
                let sp = m.cpu.reg.sp;
                match dest {
                    Operand::Register16(Reg16Index::HL) => m.flags(
                        false,
                        false,
                        (v & 0x0F) + (sp & 0x0F) > 0x0F,
                        (v & 0xFF) + (sp & 0xFF) > 0xFF,
                    ).with_hl(wrap16(sp + signed_offset(v as u8))),
                    Operand::Register8(Reg8Index::A) => m.with_a(m.read8(wrap16(v + 0xFF00))),
                    Operand::Register8(Reg8Index::C) | Operand::Value8 => {
                        let (m2, a) = m.read_operand(dest);
                        m2.write8(wrap16(a + 0xFF00), v as u8)
                    },
                    _ => m,
                }
            },
            Instruction::INC(op) => {
                let (m, v) = self.read_operand(op);
                match op {
                    Operand::Register16(_) => m.write_operand16(op, wrap16(v + 1)),
                    Operand::Register8(_) => {
                        let x = wrap8((v as u8) + 1);
                        m.write_operand8(op, x).flag(Flag::Z, x == 0).flag(Flag::S, false).flag(
                            Flag::H,
                            x & 0x0F == 0,
                        )
                    },
                    _ => m,
                }
            },
            Instruction::DEC(op) => {
                let (m, v) = self.read_operand(op);
                match op {
                    Operand::Register16(_) => m.write_operand16(op, wrap16(v - 1)),
                    Operand::Register8(_) => {
                        let x = wrap8((v as u8) - 1);
                        m.write_operand8(op, x).flag(Flag::Z, x == 0).flag(Flag::S, true).flag(
                            Flag::H,
                            x & 0x0F == 0x0F,
                        )
                    },
                    _ => m,
                }
            },
            Instruction::ADDHL(op) => {
                let (m, v) = self.read_operand(op);
                let hl = m.cpu.reg.spec_hl();
                m.flag(Flag::S, false).flag(Flag::H, (v & 0x0FFF) + (hl & 0x0FFF) > 0x0FFF).flag(
                    Flag::C,
                    hl + v > 0xFFFF,
                ).with_hl(wrap16(hl + v))
            },
            Instruction::ADDSP => {
                let (m, d) = self.fetch();
                let sp = m.cpu.reg.sp;
                m.flags(false, false, (d & 0x0F) + (sp & 0x0F) > 0x0F, d + (sp & 0xFF) > 0xFF).with_sp(
                    wrap16(sp + signed_offset(d)),
                )
            },
            Instruction::ADD(op) => {
                let (m, v) = self.read_operand(op);
                m.alu_a(spec_add(m.cpu.reg.a, v as u8, false))
            },
            Instruction::ADC(op) => {
                let (m, v) = self.read_operand(op);
                m.alu_a(spec_add(m.cpu.reg.a, v as u8, m.cpu.reg.flag(Flag::C)))
            },
            Instruction::SUB(op) => {
                let (m, v) = self.read_operand(op);
                m.alu_a(spec_sub(m.cpu.reg.a, v as u8, false))
            },
            Instruction::SBC(op) => {
                let (m, v) = self.read_operand(op);
                m.alu_a(spec_sub(m.cpu.reg.a, v as u8, m.cpu.reg.flag(Flag::C)))
            },
            Instruction::AND(op) => {
                let (m, v) = self.read_operand(op);
                m.alu_a(spec_and(m.cpu.reg.a, v as u8))
            },
            Instruction::OR(op) => {
                let (m, v) = self.read_operand(op);
                m.alu_a(spec_or(m.cpu.reg.a, v as u8))
            },
            Instruction::XOR(op) => {
                let (m, v) = self.read_operand(op);
                m.alu_a(spec_xor(m.cpu.reg.a, v as u8))
            },
            Instruction::CP(op) => {
                let (m, v) = self.read_operand(op);
                let o = spec_sub(m.cpu.reg.a, v as u8, false);
                m.flags(o.z, o.n, o.h, o.c)
            },
            Instruction::CPL => self.with_a(r.a ^ 0xFF).flag(Flag::S, true).flag(Flag::H, true),
            Instruction::CCF => self.flag(Flag::S, false).flag(Flag::H, false).flag(
                Flag::C,
                !r.flag(Flag::C),
            ),
            Instruction::SCF => self.flag(Flag::S, false).flag(Flag::H, false).flag(Flag::C, true),
            Instruction::RLCA => {
                let o = spec_rlc(r.a);
                self.with_a(o.value).flags(false, false, false, o.c)
            },
            Instruction::RRCA => {
                let o = spec_rrc(r.a);
                self.with_a(o.value).flags(false, false, false, o.c)
            },
            Instruction::RLA => {
                let o = spec_rl(r.a, r.flag(Flag::C));
                self.with_a(o.value).flags(false, false, false, o.c)
            },
            Instruction::RRA => {
                let o = spec_rr(r.a, r.flag(Flag::C));
                self.with_a(o.value).flags(false, false, false, o.c)
            },
            Instruction::RLC(op) => self.shift(op, spec_rlc(self.read_operand(op).1 as u8)),
            Instruction::RRC(op) => self.shift(op, spec_rrc(self.read_operand(op).1 as u8)),
            Instruction::RL(op) => self.shift(
                op,
                spec_rl(self.read_operand(op).1 as u8, r.flag(Flag::C)),
            ),
            Instruction::RR(op) => self.shift(
                op,
                spec_rr(self.read_operand(op).1 as u8, r.flag(Flag::C)),
            ),
            Instruction::SLA(op) => self.shift(op, spec_sla(self.read_operand(op).1 as u8)),
            Instruction::SRA(op) => self.shift(op, spec_sra(self.read_operand(op).1 as u8)),
            Instruction::SRL(op) => self.shift(op, spec_srl(self.read_operand(op).1 as u8)),
            Instruction::SWAP(op) => self.shift(op, spec_swap(self.read_operand(op).1 as u8)),
            Instruction::BIT(n, op) => {
                let (m, v) = self.read_operand(op);
                m.flag(Flag::Z, (v as u8) & (1u8 << n) == 0).flag(Flag::S, false).flag(
                    Flag::H,
                    true,
                )
            },
            Instruction::RES(n, op) => {
                let (m, v) = self.read_operand(op);
                m.write_operand8(op, (v as u8) & ((1u8 << n) ^ 0xFF))
            },
            Instruction::SET(n, op) => {
                let (m, v) = self.read_operand(op);
                m.write_operand8(op, (v as u8) | (1u8 << n))
            },
            Instruction::RST(addr) => self.push(r.pc).with_pc(addr as u16),
            Instruction::DAA => {
                let o = spec_daa(r.a, r.flag(Flag::S), r.flag(Flag::H), r.flag(Flag::C));
                self.with_a(o.value).flag(Flag::Z, o.z).flag(Flag::H, false).flag(Flag::C, o.c)
            },
        }
    }

    /// A CB-prefixed rotate or shift: the operand is read, F takes the flags of `o`, and the
    /// result is stored back through the operand.
    pub open spec fn shift(self, op: Operand, o: AluOut) -> Self {
        self.read_operand(op).0.flags(o.z, o.n, o.h, o.c).write_operand8(op, o.value)
    }

    /// Interrupts are enabled and one is both requested and enabled.
    pub open spec fn interrupt_due(self) -> bool {
        self.cpu.ime && self.bus.if_flags() & self.bus.ie() != 0
    }

    /// Interrupt entry: IME and HALT clear, the lowest pending request cleared, PC pushed, and
    /// that request's vector taken.
    pub open spec fn interrupt(self) -> Self {
        let b = lowest_pending(self.bus.if_flags() & self.bus.ie());
        let m = Machine { cpu: CPU { ime: false, halt: false, ..self.cpu }, ..self };
        if b < 5 {
            Machine {
                bus: m.bus.with_if(m.bus.if_flags() & ((1u8 << b) ^ 0xFF)),
                ..m
            }.push(self.cpu.reg.pc).with_pc((0x40 + 8 * b) as u16)
        } else {
            m.push(self.cpu.reg.pc)
        }
    }

    /// The step can be taken: it services an interrupt, idles in HALT, or meets an assigned
    /// opcode.
    pub open spec fn can_step(self) -> bool {
        !self.interrupt_due() && !self.cpu.halt ==> !is_unassigned(self.read8(self.cpu.reg.pc))
    }

    /// One step of the processor and the clock cycles it takes.
    pub open spec fn step(self) -> (Self, u16) {
        if self.interrupt_due() {
            (self.interrupt(), 20)
        } else if self.cpu.halt {
            if self.bus.if_flags() & self.bus.ie() != 0 {
                (Machine { cpu: CPU { halt: false, ..self.cpu }, ..self }, 4)
            } else {
                (self, 4)
            }
        } else {
            let (m, byte) = self.fetch();
            if byte == 0xCB {
                let (m2, cb) = m.fetch();
                (m2.execute(decode_cb(cb)->Some_0), (4 * spec_inst_cb_time(cb)) as u16)
            } else {
                (m.execute(decode(byte)->Some_0), (4 * spec_inst_time(byte)) as u16)
            }
        }
    }
}

/// The part of the interpreter that carries an instruction out: 0 control flow and stack,
/// 1 loads, 2 increments and 16-bit additions, 3 rotates, shifts and bit operations, 4 the
/// operations on A.
pub open spec fn group(inst: Instruction) -> int {
    match inst {
        Instruction::LD(..) | Instruction::LD16(..) | Instruction::LDOffset(..) => 1,
        Instruction::INC(_) | Instruction::DEC(_) | Instruction::ADDHL(_) | Instruction::ADDSP => 2,
        Instruction::ADD(_) | Instruction::ADC(_) | Instruction::SUB(_) | Instruction::SBC(_)
        | Instruction::AND(_) | Instruction::OR(_) | Instruction::XOR(_) | Instruction::CP(_)
        | Instruction::CPL | Instruction::CCF | Instruction::SCF | Instruction::DAA => 4,
        Instruction::RLCA | Instruction::RRCA | Instruction::RLA | Instruction::RRA
        | Instruction::RLC(_) | Instruction::RRC(_) | Instruction::RL(_) | Instruction::RR(_)
        | Instruction::SLA(_) | Instruction::SRA(_) | Instruction::SRL(_) | Instruction::SWAP(_)
        | Instruction::BIT(..) | Instruction::SET(..) | Instruction::RES(..) => 3,
        _ => 0,
    }
}

fn lowest_pending_bit(pending: u8) -> (r: u8)
    ensures
        r == lowest_pending(pending),
{
    if pending & 0x01 != 0 {
        0
    } else if pending & 0x02 != 0 {
        1
    } else if pending & 0x04 != 0 {
        2
    } else if pending & 0x08 != 0 {
        3
    } else if pending & 0x10 != 0 {
        4
    } else {
        5
    }
}

fn offset_word(d: u8) -> (r: u16)
    ensures
        r == signed_offset(d),
{
    if d >= 128 {
        d as u16 + 0xFF00
    } else {
        d as u16
    }
}

impl CPU {
    /// Whether a branch condition holds on the current flags.
    pub open spec fn holds(self, cond: Condition) -> bool {
        match cond {
            Condition::ALWAYS => true,
            Condition::NZ => !self.reg.flag(Flag::Z),
            Condition::Z => self.reg.flag(Flag::Z),
            Condition::NC => !self.reg.flag(Flag::C),
            Condition::C => self.reg.flag(Flag::C),
        }
    }

    pub fn new() -> (r: CPU)
        ensures
            r.reg == Registers::reset(),
            r.reg.wf(),
            r.ime,
            !r.halt,
    {
        CPU { reg: Registers::new(), ime: true, halt: false }
    }

    /// Whether the next step can be taken: false exactly when it would fetch an unassigned
    /// opcode.
    pub fn can_step<H: IOHandler>(&self, bus: &MemoryBus<H>) -> (r: bool)
        requires
            bus@.wf(),
        ensures
            r == machine(*self, bus@).can_step(),
    {
        if self.ime && (bus.get_if() & bus.get_ie()) != 0 {
            true
        } else if self.halt {
            true
        } else {
            Instruction::from_byte(bus.read_byte(self.reg.pc)).is_some()
        }
    }

    fn read_byte<H: IOHandler>(&self, bus: &MemoryBus<H>, address: u16) -> (r: u8)
        requires
            bus@.wf(),
        ensures
            r == bus@.read(address),
    {
        bus.read_byte(address)
    }

    fn write_byte<H: IOHandler>(&self, bus: &mut MemoryBus<H>, address: u16, value: u8)
        requires
            old(bus)@.wf(),
        ensures
            final(bus)@ == old(bus)@.write(address, value),
            final(bus)@.wf(),
            final(bus)@.handlers.len() == old(bus)@.handlers.len(),
    {
        bus.write_byte(address, value)
    }

    fn read_word<H: IOHandler>(&self, bus: &MemoryBus<H>, address: u16) -> (r: u16)
        requires
            bus@.wf(),
        ensures
            r == machine(*self, bus@).read_word(address),
    {
        let low = self.read_byte(bus, address);
        let high = self.read_byte(bus, add16(address, 1));
        (high as u16) << 8 | low as u16
    }

    fn read_word_pc<H: IOHandler>(&mut self, bus: &MemoryBus<H>) -> (r: u16)
        requires
            bus@.wf(),
        ensures
            old(self).reg.wf() ==> final(self).reg.wf(),
            (machine(*final(self), bus@), r) == machine(*old(self), bus@).fetch16(),
    {
        let word = self.read_word(bus, self.reg.pc);
        self.reg.pc = add16(self.reg.pc, 2);
        word
    }

    fn fetch<H: IOHandler>(&mut self, bus: &MemoryBus<H>) -> (r: u8)
        requires
            bus@.wf(),
        ensures
            old(self).reg.wf() ==> final(self).reg.wf(),
            (machine(*final(self), bus@), r) == machine(*old(self), bus@).fetch(),
    {
        let byte = self.read_byte(bus, self.reg.pc);
        self.reg.pc = add16(self.reg.pc, 1);
        byte
    }

    fn push<H: IOHandler>(&mut self, bus: &mut MemoryBus<H>, value: u16)
        requires
            old(bus)@.wf(),
        ensures
            old(self).reg.wf() ==> final(self).reg.wf(),
            machine(*final(self), final(bus)@) == machine(*old(self), old(bus)@).push(value),
            final(bus)@.wf(),
            final(bus)@.handlers.len() == old(bus)@.handlers.len(),
    {
        self.write_byte(bus, sub16(self.reg.sp, 2), value as u8);
        self.write_byte(bus, sub16(self.reg.sp, 1), (value >> 8) as u8);
        self.reg.sp = sub16(self.reg.sp, 2);
    }

    fn pop<H: IOHandler>(&mut self, bus: &MemoryBus<H>) -> (r: u16)
        requires
            bus@.wf(),
        ensures
            old(self).reg.wf() ==> final(self).reg.wf(),
            (machine(*final(self), bus@), r) == machine(*old(self), bus@).pop(),
    {
        let word = self.read_word(bus, self.reg.sp);
        self.reg.sp = add16(self.reg.sp, 2);
        word
    }

    fn condition(&self, cond: Condition) -> (r: bool)
        ensures
            r == self.holds(cond),
    {
        match cond {
            Condition::ALWAYS => true,
            Condition::NZ => !self.reg.zero(),
            Condition::Z => self.reg.zero(),
            Condition::NC => !self.reg.carry(),
            Condition::C => self.reg.carry(),
        }
    }
}

impl CPU {
    fn read_operand<H: IOHandler>(&mut self, bus: &MemoryBus<H>, operand: Operand) -> (r: u16)
        requires
            bus@.wf(),
        ensures
            old(self).reg.wf() ==> final(self).reg.wf(),
            (machine(*final(self), bus@), r) == machine(*old(self), bus@).read_operand(operand),
    {
        match operand {
            Operand::Register16(reg) => match reg {
                Reg16Index::AF => self.reg.af(),
                Reg16Index::BC => self.reg.bc(),
                Reg16Index::DE => self.reg.de(),
                Reg16Index::HL => self.reg.hl(),
                Reg16Index::HLP => {
                    let value = self.reg.hl();
                    self.reg.set_hl(add16(value, 1));
                    value
                },
                Reg16Index::HLM => {
                    let value = self.reg.hl();
                    self.reg.set_hl(sub16(value, 1));
                    value
                },
                Reg16Index::SP => self.reg.sp,
            },
            Operand::Value16 => self.read_word_pc(bus),
            Operand::Register8(reg) => {
                let value = match reg {
                    Reg8Index::A => self.reg.a,
                    Reg8Index::B => self.reg.b,
                    Reg8Index::C => self.reg.c,
                    Reg8Index::D => self.reg.d,
                    Reg8Index::E => self.reg.e,
                    Reg8Index::H => self.reg.h,
                    Reg8Index::L => self.reg.l,
                    Reg8Index::HL => self.read_byte(bus, self.reg.hl()),
                };
                value as u16
            },
            Operand::Value8 => self.fetch(bus) as u16,
        }
    }

    fn write_operand8<H: IOHandler>(&mut self, bus: &mut MemoryBus<H>, operand: Operand, value: u8)
        requires
            old(bus)@.wf(),
            !(operand is Value8),
        ensures
            old(self).reg.wf() ==> final(self).reg.wf(),
            machine(*final(self), final(bus)@) == machine(*old(self), old(bus)@).write_operand8(
                operand,
                value,
            ),
            final(bus)@.wf(),
            final(bus)@.handlers.len() == old(bus)@.handlers.len(),
    {
        match operand {
            Operand::Register16(reg) => match reg {
                Reg16Index::AF => self.write_byte(bus, self.reg.af(), value),
                Reg16Index::BC => self.write_byte(bus, self.reg.bc(), value),
                Reg16Index::DE => self.write_byte(bus, self.reg.de(), value),
                Reg16Index::HL => self.write_byte(bus, self.reg.hl(), value),
                Reg16Index::HLP => {
                    let hl = self.reg.hl();
                    self.write_byte(bus, hl, value);
                    self.reg.set_hl(add16(hl, 1));
                },
                Reg16Index::HLM => {
                    let hl = self.reg.hl();
                    self.write_byte(bus, hl, value);
                    self.reg.set_hl(sub16(hl, 1));
                },
                Reg16Index::SP => self.write_byte(bus, self.reg.sp, value),
            },
            Operand::Value16 => {
                let address = self.read_word_pc(bus);
                self.write_byte(bus, address, value);
            },
            Operand::Register8(reg) => match reg {
                Reg8Index::A => self.reg.a = value,
                Reg8Index::B => self.reg.b = value,
                Reg8Index::C => self.reg.c = value,
                Reg8Index::D => self.reg.d = value,
                Reg8Index::E => self.reg.e = value,
                Reg8Index::H => self.reg.h = value,
                Reg8Index::L => self.reg.l = value,
                Reg8Index::HL => self.write_byte(bus, self.reg.hl(), value),
            },
            Operand::Value8 => {},
        }
    }

    fn write_operand16<H: IOHandler>(
        &mut self,
        bus: &mut MemoryBus<H>,
        operand: Operand,
        value: u16,
    )
        requires
            old(bus)@.wf(),
        ensures
            old(self).reg.wf() ==> final(self).reg.wf(),
            machine(*final(self), final(bus)@) == machine(*old(self), old(bus)@).write_operand16(
                operand,
                value,
            ),
            final(bus)@.wf(),
            final(bus)@.handlers.len() == old(bus)@.handlers.len(),
    {
        match operand {
            Operand::Register16(reg) => match reg {
                Reg16Index::AF => self.reg.set_af(value),
                Reg16Index::BC => self.reg.set_bc(value),
                Reg16Index::DE => self.reg.set_de(value),
                Reg16Index::HL => self.reg.set_hl(value),
                Reg16Index::HLP => self.reg.set_hl(value),
                Reg16Index::HLM => self.reg.set_hl(value),
                Reg16Index::SP => self.reg.sp = value,
            },
            Operand::Value16 => {
                let address = self.read_word_pc(bus);
                self.write_byte(bus, address, value as u8);
                self.write_byte(bus, add16(address, 1), (value >> 8) as u8);
            },
            _ => {},
        }
    }

    /// A takes the result and F its four flags.
    fn alu_a(&mut self, o: AluOut)
        ensures
            old(self).reg.wf() ==> final(self).reg.wf(),
            *final(self) == (CPU {
                reg: Registers { a: o.value, ..old(self).reg }.with_flags(o.z, o.n, o.h, o.c),
                ..*old(self)
            }),
    {
        self.reg.a = o.value;
        self.reg.set_flags(o.z, o.n, o.h, o.c);
    }

    #[verifier::rlimit(50)]
    fn execute_flow<H: IOHandler>(&mut self, bus: &mut MemoryBus<H>, instruction: Instruction)
        requires
            old(bus)@.wf(),
            group(instruction) == 0,
        ensures
            old(self).reg.wf() ==> final(self).reg.wf(),
            machine(*final(self), final(bus)@) == machine(*old(self), old(bus)@).execute(
                instruction,
            ),
            final(bus)@.wf(),
            final(bus)@.handlers.len() == old(bus)@.handlers.len(),
    {
        match instruction {
            Instruction::NOP | Instruction::STOP | Instruction::PREFIX => {},
            Instruction::HALT => self.halt = true,
            Instruction::DI => self.ime = false,
            Instruction::EI => self.ime = true,
            Instruction::JR(cond) => {
                let d = self.fetch(bus);
                if self.condition(cond) {
                    self.reg.pc = add16(self.reg.pc, offset_word(d));
                }
            },
            Instruction::JP(cond) => {
                let dest = self.read_word_pc(bus);
                if self.condition(cond) {
                    self.reg.pc = dest;
                }
            },
            Instruction::JPHL => self.reg.pc = self.reg.hl(),
            Instruction::RET(cond) => {
                if self.condition(cond) {
                    let dest = self.pop(bus);
                    self.reg.pc = dest;
                }
            },
            Instruction::RETI => {
                self.ime = true;
                let dest = self.pop(bus);
                self.reg.pc = dest;
            },
            Instruction::CALL(cond) => {
                let dest = self.read_word_pc(bus);
                if self.condition(cond) {
                    let pc = self.reg.pc;
                    self.push(bus, pc);
                    self.reg.pc = dest;
                }
            },
            Instruction::PUSH(op) => {
                let value = self.read_operand(bus, op);
                self.push(bus, value);
            },
            Instruction::POP(op) => {
                let value = self.pop(bus);
                self.write_operand16(bus, op, value);
            },
            Instruction::RST(addr) => {
                let pc = self.reg.pc;
                self.push(bus, pc);
                self.reg.pc = addr as u16;
            },
            _ => {},
        }
    }

    #[verifier::rlimit(50)]
    fn execute_load<H: IOHandler>(&mut self, bus: &mut MemoryBus<H>, instruction: Instruction)
        requires
            old(bus)@.wf(),
            group(instruction) == 1,
            well_formed(instruction),
        ensures
            old(self).reg.wf() ==> final(self).reg.wf(),
            machine(*final(self), final(bus)@) == machine(*old(self), old(bus)@).execute(
                instruction,
            ),
            final(bus)@.wf(),
            final(bus)@.handlers.len() == old(bus)@.handlers.len(),
    {
        match instruction {
            Instruction::LD(dest, src) => {
                let value = self.read_operand(bus, src);
                let byte = match src {
                    Operand::Register16(_) | Operand::Value16 => self.read_byte(bus, value),
                    _ => value as u8,
                };
                self.write_operand8(bus, dest, byte);
            },
            Instruction::LD16(dest, src) => {
                let value = self.read_operand(bus, src);
                self.write_operand16(bus, dest, value);
            },
            Instruction::LDOffset(dest, src) => {
                let value = self.read_operand(bus, src);
                match dest {
                    Operand::Register16(Reg16Index::HL) => {
                        let sp = self.reg.sp;
                        let h = (value & 0x0F) as u32 + (sp & 0x0F) as u32 > 0x0F;
                        let c = (value & 0xFF) as u32 + (sp & 0xFF) as u32 > 0xFF;
                        self.reg.set_flags(false, false, h, c);
                        self.reg.set_hl(add16(sp, offset_word(value as u8)));
                    },
                    Operand::Register8(Reg8Index::A) => {
                        let byte = self.read_byte(bus, add16(value, 0xFF00));
                        self.reg.a = byte;
                    },
                    Operand::Register8(Reg8Index::C) | Operand::Value8 => {
                        let address = self.read_operand(bus, dest);
                        self.write_byte(bus, add16(address, 0xFF00), value as u8);
                    },
                    _ => {},
                }
            },
            _ => {},
        }
    }

    #[verifier::rlimit(50)]
    fn execute_arith<H: IOHandler>(&mut self, bus: &mut MemoryBus<H>, instruction: Instruction)
        requires
            old(bus)@.wf(),
            group(instruction) == 2,
        ensures
            old(self).reg.wf() ==> final(self).reg.wf(),
            machine(*final(self), final(bus)@) == machine(*old(self), old(bus)@).execute(
                instruction,
            ),
            final(bus)@.wf(),
            final(bus)@.handlers.len() == old(bus)@.handlers.len(),
    {
        match instruction {
            Instruction::INC(op) => {
                let value = self.read_operand(bus, op);
                match op {
                    Operand::Register16(_) => self.write_operand16(bus, op, add16(value, 1)),
                    Operand::Register8(_) => {
                        let x = inc8(value as u8);
                        self.write_operand8(bus, op, x);
                        self.reg.set_flag(Flag::Z, x == 0);
                        self.reg.set_flag(Flag::S, false);
                        self.reg.set_flag(Flag::H, x & 0x0F == 0);
                    },
                    _ => {},
                }
            },
            Instruction::DEC(op) => {
                let value = self.read_operand(bus, op);
                match op {
                    Operand::Register16(_) => self.write_operand16(bus, op, sub16(value, 1)),
                    Operand::Register8(_) => {
                        let x = dec8(value as u8);
                        self.write_operand8(bus, op, x);
                        self.reg.set_flag(Flag::Z, x == 0);
                        self.reg.set_flag(Flag::S, true);
                        self.reg.set_flag(Flag::H, x & 0x0F == 0x0F);
                    },
                    _ => {},
                }
            },
            Instruction::ADDHL(op) => {
                let value = self.read_operand(bus, op);
                let hl = self.reg.hl();
                self.reg.set_flag(Flag::S, false);
                self.reg.set_flag(Flag::H, (value & 0x0FFF) as u32 + (hl & 0x0FFF) as u32 > 0x0FFF);
                self.reg.set_flag(Flag::C, hl as u32 + value as u32 > 0xFFFF);
                self.reg.set_hl(add16(hl, value));
            },
            Instruction::ADDSP => {
                let d = self.fetch(bus);
                let sp = self.reg.sp;
                let h = (d & 0x0F) as u32 + (sp & 0x0F) as u32 > 0x0F;
                let c = d as u32 + (sp & 0xFF) as u32 > 0xFF;
                self.reg.set_flags(false, false, h, c);
                self.reg.sp = add16(sp, offset_word(d));
            },
            _ => {},
        }
    }

    #[verifier::rlimit(50)]
    fn execute_a<H: IOHandler>(&mut self, bus: &mut MemoryBus<H>, instruction: Instruction)
        requires
            old(bus)@.wf(),
            group(instruction) == 4,
        ensures
            old(self).reg.wf() ==> final(self).reg.wf(),
            machine(*final(self), final(bus)@) == machine(*old(self), old(bus)@).execute(
                instruction,
            ),
            final(bus)@.wf(),
            final(bus)@.handlers.len() == old(bus)@.handlers.len(),
    {
        match instruction {
            Instruction::ADD(op) => {
                let value = self.read_operand(bus, op);
                let o = add_carry(self.reg.a, value as u8, false);
                self.alu_a(o);
            },
            Instruction::ADC(op) => {
                let value = self.read_operand(bus, op);
                let o = add_carry(self.reg.a, value as u8, self.reg.carry());
                self.alu_a(o);
            },
            Instruction::SUB(op) => {
                let value = self.read_operand(bus, op);
                let o = sub_borrow(self.reg.a, value as u8, false);
                self.alu_a(o);
            },
            Instruction::SBC(op) => {
                let value = self.read_operand(bus, op);
                let o = sub_borrow(self.reg.a, value as u8, self.reg.carry());
                self.alu_a(o);
            },
            Instruction::AND(op) => {
                let value = self.read_operand(bus, op);
                let o = and(self.reg.a, value as u8);
                self.alu_a(o);
            },
            Instruction::OR(op) => {
                let value = self.read_operand(bus, op);
                let o = or(self.reg.a, value as u8);
                self.alu_a(o);
            },
            Instruction::XOR(op) => {
                let value = self.read_operand(bus, op);
                let o = xor(self.reg.a, value as u8);
                self.alu_a(o);
            },
            Instruction::CP(op) => {
                let value = self.read_operand(bus, op);
                let o = sub_borrow(self.reg.a, value as u8, false);
                self.reg.set_flags(o.z, o.n, o.h, o.c);
            },
            Instruction::CPL => {
                self.reg.a = self.reg.a ^ 0xFF;
                self.reg.set_flag(Flag::S, true);
                self.reg.set_flag(Flag::H, true);
            },
            Instruction::CCF => {
                let carry = self.reg.carry();
                self.reg.set_flag(Flag::S, false);
                self.reg.set_flag(Flag::H, false);
                self.reg.set_flag(Flag::C, !carry);
            },
            Instruction::SCF => {
                self.reg.set_flag(Flag::S, false);
                self.reg.set_flag(Flag::H, false);
                self.reg.set_flag(Flag::C, true);
            },
            Instruction::DAA => {
                let o = daa(
                    self.reg.a,
                    self.reg.subtract(),
                    self.reg.half_carry(),
                    self.reg.carry(),
                );
                self.reg.a = o.value;
                self.reg.set_flag(Flag::Z, o.z);
                self.reg.set_flag(Flag::H, false);
                self.reg.set_flag(Flag::C, o.c);
            },
            _ => {},
        }
    }

    #[verifier::rlimit(50)]
    fn execute_bits<H: IOHandler>(&mut self, bus: &mut MemoryBus<H>, instruction: Instruction)
        requires
            old(bus)@.wf(),
            group(instruction) == 3,
            well_formed(instruction),
        ensures
            old(self).reg.wf() ==> final(self).reg.wf(),
            machine(*final(self), final(bus)@) == machine(*old(self), old(bus)@).execute(
                instruction,
            ),
            final(bus)@.wf(),
            final(bus)@.handlers.len() == old(bus)@.handlers.len(),
    {
        match instruction {
            Instruction::RLCA => {
                let o = rlc(self.reg.a);
                self.reg.a = o.value;
                self.reg.set_flags(false, false, false, o.c);
            },
            Instruction::RRCA => {
                let o = rrc(self.reg.a);
                self.reg.a = o.value;
                self.reg.set_flags(false, false, false, o.c);
            },
            Instruction::RLA => {
                let o = rl(self.reg.a, self.reg.carry());
                self.reg.a = o.value;
                self.reg.set_flags(false, false, false, o.c);
            },
            Instruction::RRA => {
                let o = rr(self.reg.a, self.reg.carry());
                self.reg.a = o.value;
                self.reg.set_flags(false, false, false, o.c);
            },
            Instruction::RLC(op) => {
                let value = self.read_operand(bus, op);
                self.store_shifted(bus, op, rlc(value as u8));
            },
            Instruction::RRC(op) => {
                let value = self.read_operand(bus, op);
                self.store_shifted(bus, op, rrc(value as u8));
            },
            Instruction::RL(op) => {
                let value = self.read_operand(bus, op);
                let carry = self.reg.carry();
                self.store_shifted(bus, op, rl(value as u8, carry));
            },
            Instruction::RR(op) => {
                let value = self.read_operand(bus, op);
                let carry = self.reg.carry();
                self.store_shifted(bus, op, rr(value as u8, carry));
            },
            Instruction::SLA(op) => {
                let value = self.read_operand(bus, op);
                self.store_shifted(bus, op, sla(value as u8));
            },
            Instruction::SRA(op) => {
                let value = self.read_operand(bus, op);
                self.store_shifted(bus, op, sra(value as u8));
            },
            Instruction::SRL(op) => {
                let value = self.read_operand(bus, op);
                self.store_shifted(bus, op, srl(value as u8));
            },
            Instruction::SWAP(op) => {
                let value = self.read_operand(bus, op);
                self.store_shifted(bus, op, swap(value as u8));
            },
            Instruction::BIT(n, op) => {
                let value = self.read_operand(bus, op);
                self.reg.set_flag(Flag::Z, (value as u8) & (1u8 << n) == 0);
                self.reg.set_flag(Flag::S, false);
                self.reg.set_flag(Flag::H, true);
            },
            Instruction::RES(n, op) => {
                let value = self.read_operand(bus, op);
                self.write_operand8(bus, op, (value as u8) & ((1u8 << n) ^ 0xFF));
            },
            Instruction::SET(n, op) => {
                let value = self.read_operand(bus, op);
                self.write_operand8(bus, op, (value as u8) | (1u8 << n));
            },
            _ => {},
        }
    }

    /// F takes the flags of a rotate or shift, and its result goes back through the operand.
    fn store_shifted<H: IOHandler>(&mut self, bus: &mut MemoryBus<H>, op: Operand, o: AluOut)
        requires
            old(bus)@.wf(),
            !(op is Value8),
        ensures
            old(self).reg.wf() ==> final(self).reg.wf(),
            machine(*final(self), final(bus)@) == machine(*old(self), old(bus)@).flags(
                o.z,
                o.n,
                o.h,
                o.c,
            ).write_operand8(op, o.value),
            final(bus)@.wf(),
            final(bus)@.handlers.len() == old(bus)@.handlers.len(),
    {
        self.reg.set_flags(o.z, o.n, o.h, o.c);
        self.write_operand8(bus, op, o.value);
    }

    fn execute<H: IOHandler>(&mut self, bus: &mut MemoryBus<H>, instruction: Instruction)
        requires
            old(bus)@.wf(),
            well_formed(instruction),
        ensures
            old(self).reg.wf() ==> final(self).reg.wf(),
            machine(*final(self), final(bus)@) == machine(*old(self), old(bus)@).execute(
                instruction,
            ),
            final(bus)@.wf(),
            final(bus)@.handlers.len() == old(bus)@.handlers.len(),
    {
        match instruction {
            Instruction::LD(..) | Instruction::LD16(..) | Instruction::LDOffset(..) => {
                self.execute_load(bus, instruction)
            },
            Instruction::INC(_) | Instruction::DEC(_) | Instruction::ADDHL(_)
            | Instruction::ADDSP => self.execute_arith(bus, instruction),
            Instruction::ADD(_) | Instruction::ADC(_) | Instruction::SUB(_) | Instruction::SBC(_)
            | Instruction::AND(_) | Instruction::OR(_) | Instruction::XOR(_) | Instruction::CP(_)
            | Instruction::CPL | Instruction::CCF | Instruction::SCF | Instruction::DAA => {
                self.execute_a(bus, instruction)
            },
            Instruction::RLCA | Instruction::RRCA | Instruction::RLA | Instruction::RRA
            | Instruction::RLC(_) | Instruction::RRC(_) | Instruction::RL(_) | Instruction::RR(_)
            | Instruction::SLA(_) | Instruction::SRA(_) | Instruction::SRL(_)
            | Instruction::SWAP(_) | Instruction::BIT(..) | Instruction::SET(..)
            | Instruction::RES(..) => self.execute_bits(bus, instruction),
            _ => self.execute_flow(bus, instruction),
        }
    }

    /// Runs one step: services a pending interrupt, idles in HALT, or fetches, decodes and
    /// executes one instruction. Returns the clock cycles taken.
    pub fn step<H: IOHandler>(&mut self, bus: &mut MemoryBus<H>) -> (r: u16)
        requires
            old(bus)@.wf(),
            machine(*old(self), old(bus)@).can_step(),
        ensures
            old(self).reg.wf() ==> final(self).reg.wf(),
            (machine(*final(self), final(bus)@), r) == machine(*old(self), old(bus)@).step(),
            final(bus)@.wf(),
            final(bus)@.handlers.len() == old(bus)@.handlers.len(),
    {
        if self.ime && (bus.get_if() & bus.get_ie()) != 0 {
            self.ime = false;
            self.halt = false;
            let b = lowest_pending_bit(bus.get_if() & bus.get_ie());
            let pc = self.reg.pc;
            if b < 5 {
                let flags = bus.get_if() & ((1u8 << b) ^ 0xFF);
                bus.set_if(flags);
                self.push(bus, pc);
                self.reg.pc = 0x40 + 8 * b as u16;
            } else {
                self.push(bus, pc);
            }
            20
        } else if self.halt {
            if (bus.get_if() & bus.get_ie()) != 0 {
                self.halt = false;
            }
            4
        } else {
            let byte = self.fetch(bus);
            if byte == 0xCB {
                let cb = self.fetch(bus);
                proof {
                    lemma_decoded_well_formed(cb);
                }
                match Instruction::from_byte_prefixed(cb) {
                    Some(instruction) => {
                        self.execute(bus, instruction);
                        4 * inst_cb_time(cb) as u16
                    },
                    None => 0,
                }
            } else {
                proof {
                    lemma_decoded_well_formed(byte);
                }
                match Instruction::from_byte(byte) {
                    Some(instruction) => {
                        self.execute(bus, instruction);
                        4 * inst_time(byte) as u16
                    },
                    None => 0,
                }
            }
        }
    }
}

} // verus!

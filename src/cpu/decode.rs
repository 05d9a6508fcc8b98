//! The two opcode tables. An opcode is decoded into an `Instruction` by its
//! bit fields: x = bits 7-6, y = bits 5-3, z = bits 2-0, and y split into
//! p = bits 5-4 and q = bit 3. `execute` then carries the instruction out and
//! returns its cost in machine cycles.
use vstd::prelude::*;
use crate::memory::Memory;
use crate::mmu::IO_REGISTERS_BEGIN;
use crate::registers::{Flags, Registers, flags};
use super::{CPU, CpuError, ImeFlag};
use super::instructions::{
    alu_add, alu_adc, alu_sub, alu_sbc, alu_and, alu_xor, alu_or, op_inc, op_dec, op_rlc, op_rrc,
    op_rl, op_rr, op_sla, op_sra, op_srl, op_swap, op_bit, op_daa, sp_plus,
};

verus! {

/// An 8-bit operand: a register, or the byte at the address in HL.
#[derive(Clone, Copy, Debug, PartialEq, Eq, Structural)]
pub enum Operand {
    B,
    C,
    D,
    E,
    H,
    L,
    AtHl,
    A,
}

/// A register pair as the 16-bit loads and arithmetic name it.
#[derive(Clone, Copy, Debug, PartialEq, Eq, Structural)]
pub enum Pair {
    BC,
    DE,
    HL,
    SP,
}

/// A register pair as `push` and `pop` name it.
#[derive(Clone, Copy, Debug, PartialEq, Eq, Structural)]
pub enum StackPair {
    BC,
    DE,
    HL,
    AF,
}

/// The address of a load or store of A: BC, DE, or HL followed by an
/// increment or a decrement of HL.
#[derive(Clone, Copy, Debug, PartialEq, Eq, Structural)]
pub enum Indirect {
    BC,
    DE,
    HlInc,
    HlDec,
}

/// The flag predicate of a conditional jump, call or return.
#[derive(Clone, Copy, Debug, PartialEq, Eq, Structural)]
pub enum Condition {
    NotZero,
    Zero,
    NotCarry,
    Carry,
}

/// An arithmetic or logic operation on A.
#[derive(Clone, Copy, Debug, PartialEq, Eq, Structural)]
pub enum AluOp {
    Add,
    Adc,
    Sub,
    Sbc,
    And,
    Xor,
    Or,
    Cp,
}

/// A rotate, shift or swap of the extended table.
#[derive(Clone, Copy, Debug, PartialEq, Eq, Structural)]
pub enum ShiftOp {
    Rlc,
    Rrc,
    Rl,
    Rr,
    Sla,
    Sra,
    Swap,
    Srl,
}

/// An instruction of the base table. Immediate operands are read from PC
/// when the instruction runs.
#[derive(Clone, Copy, Debug, PartialEq, Eq, Structural)]
pub enum Instruction {
    Nop,
    Halt,
    /// Disable interrupts after the next instruction.
    Di,
    /// Enable interrupts after the next instruction.
    Ei,
    /// 0xCB: the next byte is an opcode of the extended table.
    Prefix,
    Load(Operand, Operand),
    LoadImm(Operand),
    LoadPairImm(Pair),
    StoreAIndirect(Indirect),
    LoadAIndirect(Indirect),
    /// Store SP at the address in the immediate word.
    StoreSp,
    IncPair(Pair),
    DecPair(Pair),
    AddHl(Pair),
    Inc(Operand),
    Dec(Operand),
    Rlca,
    Rrca,
    Rla,
    Rra,
    Daa,
    Cpl,
    Scf,
    Ccf,
    Jr,
    JrIf(Condition),
    Jp,
    JpIf(Condition),
    JpHl,
    Call,
    CallIf(Condition),
    Ret,
    RetIf(Condition),
    Reti,
    Rst(u16),
    Alu(AluOp, Operand),
    AluImm(AluOp),
    Push(StackPair),
    Pop(StackPair),
    /// Store A at 0xFF00 plus the immediate byte.
    StoreHigh,
    /// Load A from 0xFF00 plus the immediate byte.
    LoadHigh,
    /// Store A at 0xFF00 plus C.
    StoreHighC,
    /// Load A from 0xFF00 plus C.
    LoadHighC,
    /// Store A at the immediate address.
    StoreA,
    /// Load A from the immediate address.
    LoadA,
    AddSp,
    /// HL set to SP plus the signed immediate byte.
    LoadHlSp,
    LoadSpHl,
}

/// An instruction of the extended table; the bit number is below 8.
#[derive(Clone, Copy, Debug, PartialEq, Eq, Structural)]
pub enum CbInstruction {
    Shift(ShiftOp, Operand),
    TestBit(u8, Operand),
    ResetBit(u8, Operand),
    SetBit(u8, Operand),
}

pub open spec fn operand_of(i: int) -> Operand {
    if i == 0 {
        Operand::B
    } else if i == 1 {
        Operand::C
    } else if i == 2 {
        Operand::D
    } else if i == 3 {
        Operand::E
    } else if i == 4 {
        Operand::H
    } else if i == 5 {
        Operand::L
    } else if i == 6 {
        Operand::AtHl
    } else {
        Operand::A
    }
}

pub open spec fn pair_of(i: int) -> Pair {
    if i == 0 {
        Pair::BC
    } else if i == 1 {
        Pair::DE
    } else if i == 2 {
        Pair::HL
    } else {
        Pair::SP
    }
}

pub open spec fn stack_pair_of(i: int) -> StackPair {
    if i == 0 {
        StackPair::BC
    } else if i == 1 {
        StackPair::DE
    } else if i == 2 {
        StackPair::HL
    } else {
        StackPair::AF
    }
}

pub open spec fn indirect_of(i: int) -> Indirect {
    if i == 0 {
        Indirect::BC
    } else if i == 1 {
        Indirect::DE
    } else if i == 2 {
        Indirect::HlInc
    } else {
        Indirect::HlDec
    }
}

pub open spec fn condition_of(i: int) -> Condition {
    if i == 0 {
        Condition::NotZero
    } else if i == 1 {
        Condition::Zero
    } else if i == 2 {
        Condition::NotCarry
    } else {
        Condition::Carry
    }
}

pub open spec fn alu_op_of(i: int) -> AluOp {
    if i == 0 {
        AluOp::Add
    } else if i == 1 {
        AluOp::Adc
    } else if i == 2 {
        AluOp::Sub
    } else if i == 3 {
        AluOp::Sbc
    } else if i == 4 {
        AluOp::And
    } else if i == 5 {
        AluOp::Xor
    } else if i == 6 {
        AluOp::Or
    } else {
        AluOp::Cp
    }
}

pub open spec fn shift_op_of(i: int) -> ShiftOp {
    if i == 0 {
        ShiftOp::Rlc
    } else if i == 1 {
        ShiftOp::Rrc
    } else if i == 2 {
        ShiftOp::Rl
    } else if i == 3 {
        ShiftOp::Rr
    } else if i == 4 {
        ShiftOp::Sla
    } else if i == 5 {
        ShiftOp::Sra
    } else if i == 6 {
        ShiftOp::Swap
    } else {
        ShiftOp::Srl
    }
}

/// The base table. `None` for the opcodes without defined semantics: 0x10
/// (STOP), 0xD3, 0xDB, 0xDD, 0xE3, 0xE4, 0xEB, 0xEC, 0xED, 0xF4, 0xFC, 0xFD.
pub open spec fn instruction_of(op: u8) -> Option<Instruction> {
    let x = op as int / 64;
    let y = (op as int / 8) % 8;
    let z = op as int % 8;
    let p = y / 2;
    let q = y % 2;
    if x == 0 {
        if z == 0 {
            if y == 0 {
                Some(Instruction::Nop)
            } else if y == 1 {
                Some(Instruction::StoreSp)
            } else if y == 2 {
                None
            } else if y == 3 {
                Some(Instruction::Jr)
            } else {
                Some(Instruction::JrIf(condition_of(y - 4)))
            }
        } else if z == 1 {
            if q == 0 {
                Some(Instruction::LoadPairImm(pair_of(p)))
            } else {
                Some(Instruction::AddHl(pair_of(p)))
            }
        } else if z == 2 {
            if q == 0 {
                Some(Instruction::StoreAIndirect(indirect_of(p)))
            } else {
                Some(Instruction::LoadAIndirect(indirect_of(p)))
            }
        } else if z == 3 {
            if q == 0 {
                Some(Instruction::IncPair(pair_of(p)))
            } else {
                Some(Instruction::DecPair(pair_of(p)))
            }
        } else if z == 4 {
            Some(Instruction::Inc(operand_of(y)))
        } else if z == 5 {
            Some(Instruction::Dec(operand_of(y)))
        } else if z == 6 {
            Some(Instruction::LoadImm(operand_of(y)))
        } else if y == 0 {
            Some(Instruction::Rlca)
        } else if y == 1 {
            Some(Instruction::Rrca)
        } else if y == 2 {
            Some(Instruction::Rla)
        } else if y == 3 {
            Some(Instruction::Rra)
        } else if y == 4 {
            Some(Instruction::Daa)
        } else if y == 5 {
            Some(Instruction::Cpl)
        } else if y == 6 {
            Some(Instruction::Scf)
        } else {
            Some(Instruction::Ccf)
        }
    } else if x == 1 {
        if op == 0x76 {
            Some(Instruction::Halt)
        } else {
            Some(Instruction::Load(operand_of(y), operand_of(z)))
        }
    } else if x == 2 {
        Some(Instruction::Alu(alu_op_of(y), operand_of(z)))
    } else if z == 0 {
        if y < 4 {
            Some(Instruction::RetIf(condition_of(y)))
        } else if y == 4 {
            Some(Instruction::StoreHigh)
        } else if y == 5 {
            Some(Instruction::AddSp)
        } else if y == 6 {
            Some(Instruction::LoadHigh)
        } else {
            Some(Instruction::LoadHlSp)
        }
    } else if z == 1 {
        if q == 0 {
            Some(Instruction::Pop(stack_pair_of(p)))
        } else if p == 0 {
            Some(Instruction::Ret)
        } else if p == 1 {
            Some(Instruction::Reti)
        } else if p == 2 {
            Some(Instruction::JpHl)
        } else {
            Some(Instruction::LoadSpHl)
        }
    } else if z == 2 {
        if y < 4 {
            Some(Instruction::JpIf(condition_of(y)))
        } else if y == 4 {
            Some(Instruction::StoreHighC)
        } else if y == 5 {
            Some(Instruction::StoreA)
        } else if y == 6 {
            Some(Instruction::LoadHighC)
        } else {
            Some(Instruction::LoadA)
        }
    } else if z == 3 {
        if y == 0 {
            Some(Instruction::Jp)
        } else if y == 1 {
            Some(Instruction::Prefix)
        } else if y == 6 {
            Some(Instruction::Di)
        } else if y == 7 {
            Some(Instruction::Ei)
        } else {
            None
        }
    } else if z == 4 {
        if y < 4 {
            Some(Instruction::CallIf(condition_of(y)))
        } else {
            None
        }
    } else if z == 5 {
        if q == 0 {
            Some(Instruction::Push(stack_pair_of(p)))
        } else if p == 0 {
            Some(Instruction::Call)
        } else {
            None
        }
    } else if z == 6 {
        Some(Instruction::AluImm(alu_op_of(y)))
    } else {
        Some(Instruction::Rst((y * 8) as u16))
    }
}

/// The extended table: rotates and shifts, then bit tests, resets and sets,
/// each over the eight operands.
pub open spec fn cb_instruction_of(op: u8) -> CbInstruction {
    let x = op as int / 64;
    let y = (op as int / 8) % 8;
    let z = op as int % 8;
    if x == 0 {
        CbInstruction::Shift(shift_op_of(y), operand_of(z))
    } else if x == 1 {
        CbInstruction::TestBit(y as u8, operand_of(z))
    } else if x == 2 {
        CbInstruction::ResetBit(y as u8, operand_of(z))
    } else {
        CbInstruction::SetBit(y as u8, operand_of(z))
    }
}

/// The result and flags of an accumulator operation; `Cp` keeps A.
pub open spec fn alu(op: AluOp, a: u8, v: u8, f: Flags) -> (u8, Flags) {
    match op {
        AluOp::Add => alu_add(a, v),
        AluOp::Adc => alu_adc(a, v, f.c()),
        AluOp::Sub => alu_sub(a, v),
        AluOp::Sbc => alu_sbc(a, v, f.c()),
        AluOp::And => alu_and(a, v),
        AluOp::Xor => alu_xor(a, v),
        AluOp::Or => alu_or(a, v),
        AluOp::Cp => (a, alu_sub(a, v).1),
    }
}

/// The result and flags of a rotate, shift or swap.
pub open spec fn shift(op: ShiftOp, v: u8, f: Flags) -> (u8, Flags) {
    match op {
        ShiftOp::Rlc => op_rlc(v),
        ShiftOp::Rrc => op_rrc(v),
        ShiftOp::Rl => op_rl(v, f),
        ShiftOp::Rr => op_rr(v, f),
        ShiftOp::Sla => op_sla(v),
        ShiftOp::Sra => op_sra(v),
        ShiftOp::Swap => op_swap(v),
        ShiftOp::Srl => op_srl(v),
    }
}

impl Operand {
    /// The operand with index `i` of an opcode's bit field.
    pub fn from_index(i: u8) -> (r: Operand)
        requires
            i < 8,
        ensures
            r == operand_of(i as int),
    {
        match i {
            0 => Operand::B,
            1 => Operand::C,
            2 => Operand::D,
            3 => Operand::E,
            4 => Operand::H,
            5 => Operand::L,
            6 => Operand::AtHl,
            _ => Operand::A,
        }
    }
}

impl Pair {
    pub fn from_index(i: u8) -> (r: Pair)
        requires
            i < 4,
        ensures
            r == pair_of(i as int),
    {
        match i {
            0 => Pair::BC,
            1 => Pair::DE,
            2 => Pair::HL,
            _ => Pair::SP,
        }
    }
}

impl StackPair {
    pub fn from_index(i: u8) -> (r: StackPair)
        requires
            i < 4,
        ensures
            r == stack_pair_of(i as int),
    {
        match i {
            0 => StackPair::BC,
            1 => StackPair::DE,
            2 => StackPair::HL,
            _ => StackPair::AF,
        }
    }
}

impl Indirect {
    pub fn from_index(i: u8) -> (r: Indirect)
        requires
            i < 4,
        ensures
            r == indirect_of(i as int),
    {
        match i {
            0 => Indirect::BC,
            1 => Indirect::DE,
            2 => Indirect::HlInc,
            _ => Indirect::HlDec,
        }
    }
}

impl Condition {
    pub fn from_index(i: u8) -> (r: Condition)
        requires
            i < 4,
        ensures
            r == condition_of(i as int),
    {
        match i {
            0 => Condition::NotZero,
            1 => Condition::Zero,
            2 => Condition::NotCarry,
            _ => Condition::Carry,
        }
    }
}

impl AluOp {
    pub fn from_index(i: u8) -> (r: AluOp)
        requires
            i < 8,
        ensures
            r == alu_op_of(i as int),
    {
        match i {
            0 => AluOp::Add,
            1 => AluOp::Adc,
            2 => AluOp::Sub,
            3 => AluOp::Sbc,
            4 => AluOp::And,
            5 => AluOp::Xor,
            6 => AluOp::Or,
            _ => AluOp::Cp,
        }
    }
}

impl ShiftOp {
    pub fn from_index(i: u8) -> (r: ShiftOp)
        requires
            i < 8,
        ensures
            r == shift_op_of(i as int),
    {
        match i {
            0 => ShiftOp::Rlc,
            1 => ShiftOp::Rrc,
            2 => ShiftOp::Rl,
            3 => ShiftOp::Rr,
            4 => ShiftOp::Sla,
            5 => ShiftOp::Sra,
            6 => ShiftOp::Swap,
            _ => ShiftOp::Srl,
        }
    }
}

impl Instruction {
    /// Decodes an opcode of the base table.
    pub fn decode(op: u8) -> (r: Option<Instruction>)
        ensures
            r == instruction_of(op),
    {
        let x = op / 64;
        let y = (op / 8) % 8;
        let z = op % 8;
        let p = y / 2;
        let q = y % 2;
        if x == 0 {
            match z {
                0 => match y {
                    0 => Some(Instruction::Nop),
                    1 => Some(Instruction::StoreSp),
                    2 => None,
                    3 => Some(Instruction::Jr),
                    _ => Some(Instruction::JrIf(Condition::from_index(y - 4))),
                },
                1 => if q == 0 {
                    Some(Instruction::LoadPairImm(Pair::from_index(p)))
                } else {
                    Some(Instruction::AddHl(Pair::from_index(p)))
                },
                2 => if q == 0 {
                    Some(Instruction::StoreAIndirect(Indirect::from_index(p)))
                } else {
                    Some(Instruction::LoadAIndirect(Indirect::from_index(p)))
                },
                3 => if q == 0 {
                    Some(Instruction::IncPair(Pair::from_index(p)))
                } else {
                    Some(Instruction::DecPair(Pair::from_index(p)))
                },
                4 => Some(Instruction::Inc(Operand::from_index(y))),
                5 => Some(Instruction::Dec(Operand::from_index(y))),
                6 => Some(Instruction::LoadImm(Operand::from_index(y))),
                _ => Some(
                    match y {
                        0 => Instruction::Rlca,
                        1 => Instruction::Rrca,
                        2 => Instruction::Rla,
                        3 => Instruction::Rra,
                        4 => Instruction::Daa,
                        5 => Instruction::Cpl,
                        6 => Instruction::Scf,
                        _ => Instruction::Ccf,
                    },
                ),
            }
        } else if x == 1 {
            if op == 0x76 {
                Some(Instruction::Halt)
            } else {
                Some(Instruction::Load(Operand::from_index(y), Operand::from_index(z)))
            }
        } else if x == 2 {
            Some(Instruction::Alu(AluOp::from_index(y), Operand::from_index(z)))
        } else {
            match z {
                0 => match y {
                    0..=3 => Some(Instruction::RetIf(Condition::from_index(y))),
                    4 => Some(Instruction::StoreHigh),
                    5 => Some(Instruction::AddSp),
                    6 => Some(Instruction::LoadHigh),
                    _ => Some(Instruction::LoadHlSp),
                },
                1 => if q == 0 {
                    Some(Instruction::Pop(StackPair::from_index(p)))
                } else {
                    match p {
                        0 => Some(Instruction::Ret),
                        1 => Some(Instruction::Reti),
                        2 => Some(Instruction::JpHl),
                        _ => Some(Instruction::LoadSpHl),
                    }
                },
                2 => match y {
                    0..=3 => Some(Instruction::JpIf(Condition::from_index(y))),
                    4 => Some(Instruction::StoreHighC),
                    5 => Some(Instruction::StoreA),
                    6 => Some(Instruction::LoadHighC),
                    _ => Some(Instruction::LoadA),
                },
                3 => match y {
                    0 => Some(Instruction::Jp),
                    1 => Some(Instruction::Prefix),
                    6 => Some(Instruction::Di),
                    7 => Some(Instruction::Ei),
                    _ => None,
                },
                4 => if y < 4 {
                    Some(Instruction::CallIf(Condition::from_index(y)))
                } else {
                    None
                },
                5 => if q == 0 {
                    Some(Instruction::Push(StackPair::from_index(p)))
                } else if p == 0 {
                    Some(Instruction::Call)
                } else {
                    None
                },
                6 => Some(Instruction::AluImm(AluOp::from_index(y))),
                _ => Some(Instruction::Rst((y as u16) * 8)),
            }
        }
    }
}

impl CbInstruction {
    /// Decodes an opcode of the extended table.
    pub fn decode(op: u8) -> (r: CbInstruction)
        ensures
            r == cb_instruction_of(op),
    {
        let x = op / 64;
        let y = (op / 8) % 8;
        let z = Operand::from_index(op % 8);
        match x {
            0 => CbInstruction::Shift(ShiftOp::from_index(y), z),
            1 => CbInstruction::TestBit(y, z),
            2 => CbInstruction::ResetBit(y, z),
            _ => CbInstruction::SetBit(y, z),
        }
    }
}

impl CPU {
    /// The value of an 8-bit operand.
    pub open spec fn operand(self, o: Operand) -> u8 {
        let r = self.registers;
        match o {
            Operand::B => r.b,
            Operand::C => r.c,
            Operand::D => r.d,
            Operand::E => r.e,
            Operand::H => r.h,
            Operand::L => r.l,
            Operand::AtHl => self.mmu.byte(r.hl()),
            Operand::A => r.a,
        }
    }

    /// The state with an 8-bit operand set to `v`.
    pub open spec fn with_operand(self, o: Operand, v: u8) -> CPU {
        let r = self.registers;
        match o {
            Operand::B => self.with_registers(Registers { b: v, ..r }),
            Operand::C => self.with_registers(Registers { c: v, ..r }),
            Operand::D => self.with_registers(Registers { d: v, ..r }),
            Operand::E => self.with_registers(Registers { e: v, ..r }),
            Operand::H => self.with_registers(Registers { h: v, ..r }),
            Operand::L => self.with_registers(Registers { l: v, ..r }),
            Operand::AtHl => self.with_byte(r.hl(), v),
            Operand::A => self.with_registers(Registers { a: v, ..r }),
        }
    }

    pub open spec fn pair(self, p: Pair) -> u16 {
        match p {
            Pair::BC => self.registers.bc(),
            Pair::DE => self.registers.de(),
            Pair::HL => self.registers.hl(),
            Pair::SP => self.registers.sp,
        }
    }

    pub open spec fn with_pair(self, p: Pair, v: u16) -> CPU {
        match p {
            Pair::BC => self.with_registers(self.registers.with_bc(v)),
            Pair::DE => self.with_registers(self.registers.with_de(v)),
            Pair::HL => self.with_registers(self.registers.with_hl(v)),
            Pair::SP => self.with_sp(v),
        }
    }

    pub open spec fn stack_pair(self, p: StackPair) -> u16 {
        match p {
            StackPair::BC => self.registers.bc(),
            StackPair::DE => self.registers.de(),
            StackPair::HL => self.registers.hl(),
            StackPair::AF => self.registers.af(),
        }
    }

    pub open spec fn with_stack_pair(self, p: StackPair, v: u16) -> CPU {
        match p {
            StackPair::BC => self.with_registers(self.registers.with_bc(v)),
            StackPair::DE => self.with_registers(self.registers.with_de(v)),
            StackPair::HL => self.with_registers(self.registers.with_hl(v)),
            StackPair::AF => self.with_registers(self.registers.with_af(v)),
        }
    }

    pub open spec fn indirect_address(self, i: Indirect) -> u16 {
        match i {
            Indirect::BC => self.registers.bc(),
            Indirect::DE => self.registers.de(),
            _ => self.registers.hl(),
        }
    }

    /// HL stepped after an access through `HlInc` or `HlDec`.
    pub open spec fn after_indirect(self, i: Indirect) -> CPU {
        let hl = self.registers.hl() as int;
        match i {
            Indirect::HlInc => self.with_registers(
                self.registers.with_hl(((hl + 1) % 0x10000) as u16),
            ),
            Indirect::HlDec => self.with_registers(
                self.registers.with_hl(((hl + 0xFFFF) % 0x10000) as u16),
            ),
            _ => self,
        }
    }

    pub open spec fn condition(self, c: Condition) -> bool {
        match c {
            Condition::NotZero => !self.registers.f.z(),
            Condition::Zero => self.registers.f.z(),
            Condition::NotCarry => !self.registers.f.c(),
            Condition::Carry => self.registers.f.c(),
        }
    }

    /// The state after an instruction of the base table whose opcode has been
    /// fetched, and its cost in machine cycles.
    pub open spec fn run_spec(self, i: Instruction) -> (CPU, u32) {
        let r = self.registers;
        let f = r.f;
        match i {
            Instruction::Nop => (self, 1),
            Instruction::Halt => (CPU { halt: true, ..self }, 1),
            Instruction::Di => (self.with_ime(ImeFlag::WillDisable), 1),
            Instruction::Ei => (self.with_ime(ImeFlag::WillEnable), 1),
            Instruction::Prefix => self.skip(1).run_cb_spec(cb_instruction_of(self.imm8())),
            Instruction::Load(d, s) => (
                self.with_operand(d, self.operand(s)),
                if d is AtHl || s is AtHl { 2 } else { 1 },
            ),
            Instruction::LoadImm(d) => (
                self.skip(1).with_operand(d, self.imm8()),
                if d is AtHl { 3 } else { 2 },
            ),
            Instruction::LoadPairImm(p) => (self.skip(2).with_pair(p, self.imm16()), 3),
            Instruction::StoreAIndirect(a) => (
                self.with_byte(self.indirect_address(a), r.a).after_indirect(a),
                2,
            ),
            Instruction::LoadAIndirect(a) => (
                self.with_operand(Operand::A, self.mmu.byte(self.indirect_address(a))).after_indirect(a),
                2,
            ),
            Instruction::StoreSp => (self.skip(2).with_word(self.imm16(), r.sp), 5),
            Instruction::IncPair(p) => (
                self.with_pair(p, ((self.pair(p) + 1) % 0x10000) as u16),
                2,
            ),
            Instruction::DecPair(p) => (
                self.with_pair(p, ((self.pair(p) + 0xFFFF) % 0x10000) as u16),
                2,
            ),
            Instruction::AddHl(p) => (self.with_registers(self.add16_hl_spec(self.pair(p))), 2),
            Instruction::Inc(o) => (
                self.with_flags(op_inc(self.operand(o), f).1).with_operand(
                    o,
                    op_inc(self.operand(o), f).0,
                ),
                if o is AtHl { 3 } else { 1 },
            ),
            Instruction::Dec(o) => (
                self.with_flags(op_dec(self.operand(o), f).1).with_operand(
                    o,
                    op_dec(self.operand(o), f).0,
                ),
                if o is AtHl { 3 } else { 1 },
            ),
            Instruction::Rlca => (
                self.with_acc((op_rlc(r.a).0, flags(false, false, false, r.a & 0x80 != 0))),
                1,
            ),
            Instruction::Rrca => (
                self.with_acc((op_rrc(r.a).0, flags(false, false, false, r.a & 0x01 != 0))),
                1,
            ),
            Instruction::Rla => (
                self.with_acc((op_rl(r.a, f).0, flags(false, false, false, r.a & 0x80 != 0))),
                1,
            ),
            Instruction::Rra => (
                self.with_acc((op_rr(r.a, f).0, flags(false, false, false, r.a & 0x01 != 0))),
                1,
            ),
            Instruction::Daa => (self.with_acc(op_daa(r.a, f)), 1),
            Instruction::Cpl => (self.with_acc((!r.a, flags(f.z(), true, true, f.c()))), 1),
            Instruction::Scf => (self.with_flags(flags(f.z(), false, false, true)), 1),
            Instruction::Ccf => (self.with_flags(flags(f.z(), false, false, !f.c())), 1),
            Instruction::Jr => (self.jr_spec(), 3),
            Instruction::JrIf(c) => if self.condition(c) {
                (self.jr_spec(), 3)
            } else {
                (self.skip(1), 2)
            },
            Instruction::Jp => (self.with_pc(self.imm16()), 4),
            Instruction::JpIf(c) => if self.condition(c) {
                (self.with_pc(self.imm16()), 4)
            } else {
                (self.skip(2), 3)
            },
            Instruction::JpHl => (self.with_pc(r.hl()), 1),
            Instruction::Call => (self.call_spec(), 6),
            Instruction::CallIf(c) => if self.condition(c) {
                (self.call_spec(), 6)
            } else {
                (self.skip(2), 3)
            },
            Instruction::Ret => (self.ret_spec(), 4),
            Instruction::RetIf(c) => if self.condition(c) {
                (self.ret_spec(), 5)
            } else {
                (self, 2)
            },
            Instruction::Reti => (self.ret_spec().with_ime(ImeFlag::Enabled), 4),
            Instruction::Rst(t) => (self.pushed(r.pc).with_pc(t), 4),
            Instruction::Alu(op, o) => (
                self.with_acc(alu(op, r.a, self.operand(o), f)),
                if o is AtHl { 2 } else { 1 },
            ),
            Instruction::AluImm(op) => (self.skip(1).with_acc(alu(op, r.a, self.imm8(), f)), 2),
            Instruction::Push(p) => (self.pushed(self.stack_pair(p)), 4),
            Instruction::Pop(p) => (self.popped().with_stack_pair(p, self.top()), 3),
            Instruction::StoreHigh => (
                self.skip(1).with_byte((IO_REGISTERS_BEGIN + self.imm8()) as u16, r.a),
                3,
            ),
            Instruction::LoadHigh => (
                self.skip(1).with_operand(Operand::A, self.mmu.byte((IO_REGISTERS_BEGIN + self.imm8()) as u16)),
                3,
            ),
            Instruction::StoreHighC => (self.with_byte((IO_REGISTERS_BEGIN + r.c) as u16, r.a), 2),
            Instruction::LoadHighC => (
                self.with_operand(Operand::A, self.mmu.byte((IO_REGISTERS_BEGIN + r.c) as u16)),
                2,
            ),
            Instruction::StoreA => (self.skip(2).with_byte(self.imm16(), r.a), 4),
            Instruction::LoadA => (
                self.skip(2).with_operand(Operand::A, self.mmu.byte(self.imm16())),
                4,
            ),
            Instruction::AddSp => (
                self.skip(1).with_sp(sp_plus(r.sp, self.imm8()).0).with_flags(
                    sp_plus(r.sp, self.imm8()).1,
                ),
                4,
            ),
            Instruction::LoadHlSp => (
                self.skip(1).with_pair(Pair::HL, sp_plus(r.sp, self.imm8()).0).with_flags(
                    sp_plus(r.sp, self.imm8()).1,
                ),
                3,
            ),
            Instruction::LoadSpHl => (self.with_sp(r.hl()), 2),
        }
    }

    /// The state after an instruction of the extended table, and its cost in
    /// machine cycles, the prefix included.
    pub open spec fn run_cb_spec(self, i: CbInstruction) -> (CPU, u32) {
        let f = self.registers.f;
        match i {
            CbInstruction::Shift(op, o) => (
                self.with_flags(shift(op, self.operand(o), f).1).with_operand(
                    o,
                    shift(op, self.operand(o), f).0,
                ),
                if o is AtHl { 4 } else { 2 },
            ),
            CbInstruction::TestBit(n, o) => (
                self.with_flags(op_bit(self.operand(o), n, f)),
                if o is AtHl { 3 } else { 2 },
            ),
            CbInstruction::ResetBit(n, o) => (
                self.with_operand(o, self.operand(o) & !(1u8 << n)),
                if o is AtHl { 4 } else { 2 },
            ),
            CbInstruction::SetBit(n, o) => (
                self.with_operand(o, self.operand(o) | (1u8 << n)),
                if o is AtHl { 4 } else { 2 },
            ),
        }
    }

    /// The state after executing `op`, fetched from the address before PC,
    /// and the machine cycles taken; an opcode without semantics changes
    /// nothing and is reported with that address.
    pub open spec fn execute_spec(self, op: u8) -> (CPU, Result<u32, CpuError>) {
        match instruction_of(op) {
            Some(i) => (self.run_spec(i).0, Ok(self.run_spec(i).1)),
            None => (
                self,
                Err(
                    CpuError::UnimplementedOpcode {
                        opcode: op,
                        pc: ((self.registers.pc + 0xFFFF) % 0x10000) as u16,
                    },
                ),
            ),
        }
    }

    pub fn read_operand(&self, o: Operand) -> (r: u8)
        ensures
            r == self.operand(o),
    {
        match o {
            Operand::B => self.registers.b,
            Operand::C => self.registers.c,
            Operand::D => self.registers.d,
            Operand::E => self.registers.e,
            Operand::H => self.registers.h,
            Operand::L => self.registers.l,
            Operand::AtHl => self.mmu.read_byte(self.registers.hl()),
            Operand::A => self.registers.a,
        }
    }

    pub fn write_operand(&mut self, o: Operand, v: u8)
        ensures
            *final(self) == old(self).with_operand(o, v),
    {
        match o {
            Operand::B => self.registers.b = v,
            Operand::C => self.registers.c = v,
            Operand::D => self.registers.d = v,
            Operand::E => self.registers.e = v,
            Operand::H => self.registers.h = v,
            Operand::L => self.registers.l = v,
            Operand::AtHl => {
                let address = self.registers.hl();
                self.mmu.write_byte(address, v);
            },
            Operand::A => self.registers.a = v,
        }
    }

    pub fn read_pair(&self, p: Pair) -> (r: u16)
        ensures
            r == self.pair(p),
    {
        match p {
            Pair::BC => self.registers.bc(),
            Pair::DE => self.registers.de(),
            Pair::HL => self.registers.hl(),
            Pair::SP => self.registers.sp,
        }
    }

    pub fn write_pair(&mut self, p: Pair, v: u16)
        ensures
            *final(self) == old(self).with_pair(p, v),
    {
        match p {
            Pair::BC => self.registers.set_bc(v),
            Pair::DE => self.registers.set_de(v),
            Pair::HL => self.registers.set_hl(v),
            Pair::SP => self.registers.sp = v,
        }
    }

    fn indirect(&self, a: Indirect) -> (r: u16)
        ensures
            r == self.indirect_address(a),
    {
        match a {
            Indirect::BC => self.registers.bc(),
            Indirect::DE => self.registers.de(),
            _ => self.registers.hl(),
        }
    }

    fn step_hl(&mut self, a: Indirect)
        ensures
            *final(self) == old(self).after_indirect(a),
    {
        match a {
            Indirect::HlInc => {
                let hl = self.registers.hl().wrapping_add(1);
                self.registers.set_hl(hl);
            },
            Indirect::HlDec => {
                let hl = self.registers.hl().wrapping_sub(1);
                self.registers.set_hl(hl);
            },
            _ => {},
        }
    }

    /// Advances PC past `n` operand bytes that are not used.
    fn skip_bytes(&mut self, n: u16)
        ensures
            *final(self) == old(self).skip(n as int),
    {
        self.registers.pc = self.registers.pc.wrapping_add(n);
    }

    pub fn test_condition(&self, c: Condition) -> (r: bool)
        ensures
            r == self.condition(c),
    {
        match c {
            Condition::NotZero => !self.registers.f.z(),
            Condition::Zero => self.registers.f.z(),
            Condition::NotCarry => !self.registers.f.c(),
            Condition::Carry => self.registers.f.c(),
        }
    }

    /// Carries out an accumulator operation.
    pub fn alu(&mut self, op: AluOp, v: u8)
        ensures
            *final(self) == old(self).with_acc(
                alu(op, old(self).registers.a, v, old(self).registers.f),
            ),
    {
        match op {
            AluOp::Add => self.add(v),
            AluOp::Adc => self.adc(v),
            AluOp::Sub => self.sub(v),
            AluOp::Sbc => self.sbc(v),
            AluOp::And => self.and(v),
            AluOp::Xor => self.xor(v),
            AluOp::Or => self.or(v),
            AluOp::Cp => self.cp(v),
        }
    }

    /// Decode op code and execute instruction. Returns how many machine
    /// cycles were necessary to run the instruction.
    pub fn execute(&mut self, op: u8) -> (r: Result<u32, CpuError>)
        ensures
            (*final(self), r) == old(self).execute_spec(op),
    {
        match Instruction::decode(op) {
            Some(i) => Ok(self.run(i)),
            None => Err(
                CpuError::UnimplementedOpcode { opcode: op, pc: self.registers.pc.wrapping_sub(1) },
            ),
        }
    }

    /// Executes an opcode of the extended table, whose 0xCB prefix has been
    /// fetched, and returns the machine cycles taken, the prefix included.
    pub fn execute_cb(&mut self, op: u8) -> (r: u32)
        ensures
            (*final(self), r) == old(self).run_cb_spec(cb_instruction_of(op)),
    {
        match CbInstruction::decode(op) {
            CbInstruction::Shift(s, o) => {
                let v = self.read_operand(o);
                let result = match s {
                    ShiftOp::Rlc => self.rlc(v),
                    ShiftOp::Rrc => self.rrc(v),
                    ShiftOp::Rl => self.rl(v),
                    ShiftOp::Rr => self.rr(v),
                    ShiftOp::Sla => self.sla(v),
                    ShiftOp::Sra => self.sra(v),
                    ShiftOp::Swap => self.swap(v),
                    ShiftOp::Srl => self.srl(v),
                };
                self.write_operand(o, result);
                match o {
                    Operand::AtHl => 4,
                    _ => 2,
                }
            },
            CbInstruction::TestBit(n, o) => {
                let v = self.read_operand(o);
                self.bit(v, n);
                match o {
                    Operand::AtHl => 3,
                    _ => 2,
                }
            },
            CbInstruction::ResetBit(n, o) => {
                let v = self.read_operand(o);
                let result = self.res(v, n);
                self.write_operand(o, result);
                match o {
                    Operand::AtHl => 4,
                    _ => 2,
                }
            },
            CbInstruction::SetBit(n, o) => {
                let v = self.read_operand(o);
                let result = self.set(v, n);
                self.write_operand(o, result);
                match o {
                    Operand::AtHl => 4,
                    _ => 2,
                }
            },
        }
    }

    /// Carries out a decoded instruction of the base table.
    fn run(&mut self, i: Instruction) -> (r: u32)
        ensures
            (*final(self), r) == old(self).run_spec(i),
    {
        match i {
            Instruction::Nop
            | Instruction::Halt
            | Instruction::Di
            | Instruction::Ei
                => self.run_mode(i),
            Instruction::Jr
            | Instruction::JrIf(..)
            | Instruction::Jp
            | Instruction::JpIf(..)
            | Instruction::JpHl
                => self.run_jump(i),
            Instruction::Call
            | Instruction::CallIf(..)
            | Instruction::Ret
            | Instruction::RetIf(..)
            | Instruction::Reti
            | Instruction::Rst(..)
                => self.run_call(i),
            Instruction::Load(..)
            | Instruction::LoadImm(..)
            | Instruction::LoadPairImm(..)
            | Instruction::StoreAIndirect(..)
            | Instruction::LoadAIndirect(..)
            | Instruction::StoreSp
            | Instruction::Push(..)
            | Instruction::Pop(..)
            | Instruction::StoreHigh
            | Instruction::LoadHigh
            | Instruction::StoreHighC
            | Instruction::LoadHighC
            | Instruction::StoreA
            | Instruction::LoadA
            | Instruction::LoadSpHl
                => self.run_transfer(i),
            Instruction::IncPair(..)
            | Instruction::DecPair(..)
            | Instruction::AddHl(..)
            | Instruction::Inc(..)
            | Instruction::Dec(..)
            | Instruction::Rlca
            | Instruction::Rrca
            | Instruction::Rla
            | Instruction::Rra
            | Instruction::Daa
            | Instruction::Cpl
            | Instruction::Scf
            | Instruction::Ccf
            | Instruction::Alu(..)
            | Instruction::AluImm(..)
            | Instruction::AddSp
            | Instruction::LoadHlSp
                => self.run_arithmetic(i),
            Instruction::Prefix => {
                let op = self.fetch_byte();
                self.execute_cb(op)
            },
        }
    }

    /// Carries out a change of CPU mode or interrupt enable.
    fn run_mode(&mut self, i: Instruction) -> (r: u32)
        requires
            i is Nop || i is Halt || i is Di || i is Ei,
        ensures
            (*final(self), r) == old(self).run_spec(i),
    {
        match i {
            Instruction::Nop => {
                self.nop();
                1
            },
            Instruction::Halt => {
                self.halt = true;
                1
            },
            Instruction::Di => {
                self.ime_timer.flag = ImeFlag::WillDisable;
                1
            },
            Instruction::Ei => {
                self.ime_timer.flag = ImeFlag::WillEnable;
                1
            },
            // The precondition rules out every other instruction.
            _ => 0,
        }
    }

    /// Carries out a jump.
    fn run_jump(&mut self, i: Instruction) -> (r: u32)
        requires
            i is Jr || i is JrIf || i is Jp || i is JpIf || i is JpHl,
        ensures
            (*final(self), r) == old(self).run_spec(i),
    {
        match i {
            Instruction::Jr => {
                self.jr();
                3
            },
            Instruction::JrIf(c) => {
                if self.test_condition(c) {
                    self.jr();
                    3
                } else {
                    self.skip_bytes(1);
                    2
                }
            },
            Instruction::Jp => {
                self.jp();
                4
            },
            Instruction::JpIf(c) => {
                if self.test_condition(c) {
                    self.jp();
                    4
                } else {
                    self.skip_bytes(2);
                    3
                }
            },
            Instruction::JpHl => {
                self.registers.pc = self.registers.hl();
                1
            },
            // The precondition rules out every other instruction.
            _ => 0,
        }
    }

    /// Carries out a call or a return.
    fn run_call(&mut self, i: Instruction) -> (r: u32)
        requires
            i is Call || i is CallIf || i is Ret || i is RetIf || i is Reti || i is Rst,
        ensures
            (*final(self), r) == old(self).run_spec(i),
    {
        match i {
            Instruction::Call => {
                self.call();
                6
            },
            Instruction::CallIf(c) => {
                if self.test_condition(c) {
                    self.call();
                    6
                } else {
                    self.skip_bytes(2);
                    3
                }
            },
            Instruction::Ret => {
                self.ret();
                4
            },
            Instruction::RetIf(c) => {
                if self.test_condition(c) {
                    self.ret();
                    5
                } else {
                    2
                }
            },
            Instruction::Reti => {
                self.ret();
                self.ime_timer.flag = ImeFlag::Enabled;
                4
            },
            Instruction::Rst(t) => {
                self.rst(t);
                4
            },
            // The precondition rules out every other instruction.
            _ => 0,
        }
    }

    /// Carries out a load, store, push or pop.
    fn run_transfer(&mut self, i: Instruction) -> (r: u32)
        requires
            i is Load || i is LoadImm || i is LoadPairImm || i is StoreAIndirect || i is LoadAIndirect || i is StoreSp || i is Push || i is Pop || i is StoreHigh || i is LoadHigh || i is StoreHighC || i is LoadHighC || i is StoreA || i is LoadA || i is LoadSpHl,
        ensures
            (*final(self), r) == old(self).run_spec(i),
    {
        match i {
            Instruction::Load(d, s) => {
                let v = self.read_operand(s);
                self.write_operand(d, v);
                match (d, s) {
                    (Operand::AtHl, _) | (_, Operand::AtHl) => 2,
                    _ => 1,
                }
            },
            Instruction::LoadImm(d) => {
                let v = self.fetch_byte();
                self.write_operand(d, v);
                match d {
                    Operand::AtHl => 3,
                    _ => 2,
                }
            },
            Instruction::LoadPairImm(p) => {
                let v = self.fetch_word();
                self.write_pair(p, v);
                3
            },
            Instruction::StoreAIndirect(a) => {
                let address = self.indirect(a);
                self.mmu.write_byte(address, self.registers.a);
                self.step_hl(a);
                2
            },
            Instruction::LoadAIndirect(a) => {
                let address = self.indirect(a);
                self.registers.a = self.mmu.read_byte(address);
                self.step_hl(a);
                2
            },
            Instruction::StoreSp => {
                let address = self.fetch_word();
                self.mmu.write_word(address, self.registers.sp);
                5
            },
            Instruction::Push(p) => {
                let v = match p {
                    StackPair::BC => self.registers.bc(),
                    StackPair::DE => self.registers.de(),
                    StackPair::HL => self.registers.hl(),
                    StackPair::AF => self.registers.af(),
                };
                self.push(v);
                4
            },
            Instruction::Pop(p) => {
                let v = self.pop();
                match p {
                    StackPair::BC => self.registers.set_bc(v),
                    StackPair::DE => self.registers.set_de(v),
                    StackPair::HL => self.registers.set_hl(v),
                    StackPair::AF => self.registers.set_af(v),
                }
                3
            },
            Instruction::StoreHigh => {
                let offset = self.fetch_byte();
                self.mmu.write_byte(IO_REGISTERS_BEGIN + offset as u16, self.registers.a);
                3
            },
            Instruction::LoadHigh => {
                let offset = self.fetch_byte();
                self.registers.a = self.mmu.read_byte(IO_REGISTERS_BEGIN + offset as u16);
                3
            },
            Instruction::StoreHighC => {
                self.mmu.write_byte(IO_REGISTERS_BEGIN + self.registers.c as u16, self.registers.a);
                2
            },
            Instruction::LoadHighC => {
                self.registers.a = self.mmu.read_byte(IO_REGISTERS_BEGIN + self.registers.c as u16);
                2
            },
            Instruction::StoreA => {
                let address = self.fetch_word();
                self.mmu.write_byte(address, self.registers.a);
                4
            },
            Instruction::LoadA => {
                let address = self.fetch_word();
                self.registers.a = self.mmu.read_byte(address);
                4
            },
            Instruction::LoadSpHl => {
                self.registers.sp = self.registers.hl();
                2
            },
            // The precondition rules out every other instruction.
            _ => 0,
        }
    }

    /// Carries out an arithmetic, logic or rotate instruction.
    fn run_arithmetic(&mut self, i: Instruction) -> (r: u32)
        requires
            i is IncPair || i is DecPair || i is AddHl || i is Inc || i is Dec || i is Rlca || i is Rrca || i is Rla || i is Rra || i is Daa || i is Cpl || i is Scf || i is Ccf || i is Alu || i is AluImm || i is AddSp || i is LoadHlSp,
        ensures
            (*final(self), r) == old(self).run_spec(i),
    {
        match i {
            Instruction::IncPair(p) => {
                let v = self.read_pair(p);
                let result = self.inc16(v);
                self.write_pair(p, result);
                2
            },
            Instruction::DecPair(p) => {
                let v = self.read_pair(p);
                let result = self.dec16(v);
                self.write_pair(p, result);
                2
            },
            Instruction::AddHl(p) => {
                let v = self.read_pair(p);
                self.add16_hl(v);
                2
            },
            Instruction::Inc(o) => {
                let v = self.read_operand(o);
                let result = self.inc(v);
                self.write_operand(o, result);
                match o {
                    Operand::AtHl => 3,
                    _ => 1,
                }
            },
            Instruction::Dec(o) => {
                let v = self.read_operand(o);
                let result = self.dec(v);
                self.write_operand(o, result);
                match o {
                    Operand::AtHl => 3,
                    _ => 1,
                }
            },
            Instruction::Rlca => {
                self.rlca();
                1
            },
            Instruction::Rrca => {
                self.rrca();
                1
            },
            Instruction::Rla => {
                self.rla();
                1
            },
            Instruction::Rra => {
                self.rra();
                1
            },
            Instruction::Daa => {
                self.daa();
                1
            },
            Instruction::Cpl => {
                self.cpl();
                1
            },
            Instruction::Scf => {
                self.scf();
                1
            },
            Instruction::Ccf => {
                self.ccf();
                1
            },
            Instruction::Alu(op, o) => {
                let v = self.read_operand(o);
                self.alu(op, v);
                match o {
                    Operand::AtHl => 2,
                    _ => 1,
                }
            },
            Instruction::AluImm(op) => {
                let v = self.fetch_byte();
                self.alu(op, v);
                2
            },
            Instruction::AddSp => {
                let value = self.fetch_byte();
                self.add16_sp(value);
                4
            },
            Instruction::LoadHlSp => {
                let value = self.fetch_byte();
                let (sum, f) = Self::offset_sp(self.registers.sp, value);
                self.registers.set_hl(sum);
                self.registers.f = f;
                3
            },
            // The precondition rules out every other instruction.
            _ => 0,
        }
    }
}

} // verus!

//! Target instructions and the selection of them from three-address code.
use vstd::prelude::*;

use crate::tac::{TacInstruction, TacVal, TacValV};

verus! {

#[derive(Clone, Copy, Debug, PartialEq, Eq, Structural)]
pub enum AsmReg {
    AX,
    DX,
    R10,
    R11,
}

/// A machine location: an immediate, a register, or a named slot that a
/// later allocation stage maps to storage.
#[derive(Debug)]
pub enum AsmOperand {
    Imm(i32),
    Reg(AsmReg),
    Pseudo(String),
}

pub enum AsmOperandV {
    Imm(i32),
    Reg(AsmReg),
    Pseudo(Seq<char>),
}

impl View for AsmOperand {
    type V = AsmOperandV;

    open spec fn view(&self) -> AsmOperandV {
        match self {
            AsmOperand::Imm(i) => AsmOperandV::Imm(*i),
            AsmOperand::Reg(r) => AsmOperandV::Reg(*r),
            AsmOperand::Pseudo(n) => AsmOperandV::Pseudo(n@),
        }
    }
}

impl AsmOperand {
    pub fn new_reg(reg: AsmReg) -> (r: AsmOperand)
        ensures
            r@ == AsmOperandV::Reg(reg),
    {
        AsmOperand::Reg(reg)
    }
}

#[derive(Debug)]
pub enum AsmInstruction {
    Mov { src: AsmOperand, dst: AsmOperand },
    Ret,
}

pub enum AsmInstructionV {
    Mov { src: AsmOperandV, dst: AsmOperandV },
    Ret,
}

impl View for AsmInstruction {
    type V = AsmInstructionV;

    open spec fn view(&self) -> AsmInstructionV {
        match self {
            AsmInstruction::Mov { src, dst } => AsmInstructionV::Mov { src: src@, dst: dst@ },
            AsmInstruction::Ret => AsmInstructionV::Ret,
        }
    }
}

pub open spec fn instructions_view(s: Seq<AsmInstruction>) -> Seq<AsmInstructionV> {
    s.map_values(|i: AsmInstruction| i@)
}

/// A constant becomes an immediate; a named value becomes a pseudo-register.
pub open spec fn operand_of(v: TacValV) -> AsmOperandV {
    match v {
        TacValV::Constant(c) => AsmOperandV::Imm(c),
        TacValV::Var(n) => AsmOperandV::Pseudo(n),
    }
}

pub fn convert_operand(val: &TacVal) -> (r: AsmOperand)
    ensures
        r@ == operand_of(val@),
{
    match val {
        TacVal::Constant(c) => AsmOperand::Imm(*c),
        TacVal::Var(n) => AsmOperand::Pseudo(n.clone()),
    }
}

/// The instructions that return a value: a move into the accumulator, then
/// the return itself.
pub open spec fn return_sequence(val: TacValV) -> Seq<AsmInstructionV> {
    seq![
        AsmInstructionV::Mov { src: operand_of(val), dst: AsmOperandV::Reg(AsmReg::AX) },
        AsmInstructionV::Ret,
    ]
}

/// The selection rules, reading the instructions of one function.
pub struct GeneratorCasts<'a> {
    pub instructions: &'a Vec<TacInstruction>,
}

impl<'a> GeneratorCasts<'a> {
    pub fn new(instructions: &'a Vec<TacInstruction>) -> (r: Self)
        ensures
            r.instructions == instructions,
    {
        GeneratorCasts { instructions }
    }

    pub fn cast_return(&self, instr: &TacInstruction) -> (r: Vec<AsmInstruction>)
        requires
            instr is Return,
        ensures
            instructions_view(r@) == return_sequence(instr->val@),
    {
        match instr {
            TacInstruction::Return { val } => {
                let r = vec![
                    AsmInstruction::Mov {
                        src: convert_operand(val),
                        dst: AsmOperand::new_reg(AsmReg::AX),
                    },
                    AsmInstruction::Ret,
                ];
                assert(instructions_view(r@) =~= return_sequence(instr->val@));
                r
            },
            _ => {
                Vec::new()
            },
        }
    }
}

} // verus!

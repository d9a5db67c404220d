//! The three-address intermediate representation and its generator state.
use vstd::prelude::*;

use crate::ast::{BinaryOperator, UnaryOperator};
use crate::context::TempGenerator;

verus! {

/// An operand: a constant or the name of a temporary or variable.
#[derive(Debug)]
pub enum TacVal {
    Constant(i32),
    Var(String),
}

pub enum TacValV {
    Constant(i32),
    Var(Seq<char>),
}

impl View for TacVal {
    type V = TacValV;

    open spec fn view(&self) -> TacValV {
        match self {
            TacVal::Constant(c) => TacValV::Constant(*c),
            TacVal::Var(n) => TacValV::Var(n@),
        }
    }
}

/// One flat instruction: at most one operator, two sources and a destination.
#[derive(Debug)]
pub enum TacInstruction {
    Return { val: TacVal },
    Unary { operator: UnaryOperator, src: TacVal, dst: TacVal },
    Binary { operator: BinaryOperator, src1: TacVal, src2: TacVal, dst: TacVal },
    Copy { src: TacVal, dst: TacVal },
    Jump { target: String },
    JumpIfZero { condition: TacVal, target: String },
    JumpIfNotZero { condition: TacVal, target: String },
    Label(String),
}

pub enum TacInstrV {
    Return { val: TacValV },
    Unary { operator: UnaryOperator, src: TacValV, dst: TacValV },
    Binary { operator: BinaryOperator, src1: TacValV, src2: TacValV, dst: TacValV },
    Copy { src: TacValV, dst: TacValV },
    Jump { target: Seq<char> },
    JumpIfZero { condition: TacValV, target: Seq<char> },
    JumpIfNotZero { condition: TacValV, target: Seq<char> },
    Label(Seq<char>),
}

impl View for TacInstruction {
    type V = TacInstrV;

    open spec fn view(&self) -> TacInstrV {
        match self {
            TacInstruction::Return { val } => TacInstrV::Return { val: val@ },
            TacInstruction::Unary { operator, src, dst } => TacInstrV::Unary {
                operator: *operator,
                src: src@,
                dst: dst@,
            },
            TacInstruction::Binary { operator, src1, src2, dst } => TacInstrV::Binary {
                operator: *operator,
                src1: src1@,
                src2: src2@,
                dst: dst@,
            },
            TacInstruction::Copy { src, dst } => TacInstrV::Copy { src: src@, dst: dst@ },
            TacInstruction::Jump { target } => TacInstrV::Jump { target: target@ },
            TacInstruction::JumpIfZero { condition, target } => TacInstrV::JumpIfZero {
                condition: condition@,
                target: target@,
            },
            TacInstruction::JumpIfNotZero { condition, target } => TacInstrV::JumpIfNotZero {
                condition: condition@,
                target: target@,
            },
            TacInstruction::Label(l) => TacInstrV::Label(l@),
        }
    }
}

pub open spec fn tac_view(s: Seq<TacInstruction>) -> Seq<TacInstrV> {
    s.map_values(|i: TacInstruction| i@)
}

/// The state of lowering one function: the instructions emitted so far and
/// the counter for temporaries and labels.
#[derive(Debug)]
pub struct TacGenerator {
    pub instructions: Vec<TacInstruction>,
    pub temp_gen: TempGenerator,
}

impl TacGenerator {
    pub fn new() -> (r: TacGenerator)
        ensures
            r.instructions@.len() == 0,
            r.temp_gen.counter == 0,
    {
        TacGenerator { instructions: Vec::new(), temp_gen: TempGenerator::new() }
    }

    pub open spec fn emitted(&self) -> Seq<TacInstrV> {
        tac_view(self.instructions@)
    }

    pub open spec fn counter(&self) -> nat {
        self.temp_gen.counter as nat
    }

    /// Appends one instruction.
    pub fn emit(&mut self, i: TacInstruction)
        ensures
            final(self).emitted() == old(self).emitted().push(i@),
            final(self).temp_gen == old(self).temp_gen,
    {
        self.instructions.push(i);
        assert(final(self).emitted() =~= old(self).emitted().push(i@));
    }
}

/// The lowering rules, working on a generator that they borrow.
pub struct GeneratorTransforms<'a> {
    generator: &'a mut TacGenerator,
}

impl<'a> GeneratorTransforms<'a> {
    pub fn new(generator: &'a mut TacGenerator) -> (r: Self)
        ensures
            *r.generator() == *old(generator),
    {
        Self { generator }
    }

    pub closed spec fn generator(&self) -> &TacGenerator {
        &*self.generator
    }
}

} // verus!

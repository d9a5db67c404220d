use minicc::selection::{AsmInstruction, AsmOperand, AsmReg, GeneratorCasts};
use minicc::tac::{TacGenerator, TacInstruction, TacVal, GeneratorTransforms};

#[test]
fn return_of_constant_moves_immediate_into_accumulator() {
    let instrs = vec![TacInstruction::Return { val: TacVal::Constant(42) }];
    let casts = GeneratorCasts::new(&instrs);
    let out = casts.cast_return(&instrs[0]);
    assert_eq!(out.len(), 2);
    match &out[0] {
        AsmInstruction::Mov { src: AsmOperand::Imm(42), dst: AsmOperand::Reg(AsmReg::AX) } => {}
        other => panic!("unexpected {:?}", other),
    }
    assert!(matches!(out[1], AsmInstruction::Ret));
}

#[test]
fn return_of_variable_moves_pseudo_register() {
    let instrs = vec![TacInstruction::Return { val: TacVal::Var("x.3".to_string()) }];
    let casts = GeneratorCasts::new(&instrs);
    let out = casts.cast_return(&instrs[0]);
    assert_eq!(out.len(), 2);
    match &out[0] {
        AsmInstruction::Mov { src: AsmOperand::Pseudo(name), dst: AsmOperand::Reg(AsmReg::AX) } => {
            assert_eq!(name, "x.3")
        }
        other => panic!("unexpected {:?}", other),
    }
    assert!(matches!(out[1], AsmInstruction::Ret));
}

#[test]
fn transforms_borrow_generator() {
    let mut g = TacGenerator::new();
    let _t = GeneratorTransforms::new(&mut g);
    assert!(g.instructions.is_empty());
    assert_eq!(g.temp_gen.counter, 0);
}

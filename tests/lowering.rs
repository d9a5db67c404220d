use minicc::ast::{
    AstBlock, AstBlockItem, AstDeclaration, AstExpression, AstStatement, BinaryOperator, Span,
    UnaryOperator,
};
use minicc::lowering::{lower_expression, lower_function_body, lower_statement};
use minicc::tac::{TacGenerator, TacInstruction, TacVal};

fn sp() -> Span {
    Span::new(0, 0)
}

fn var(name: &str) -> AstExpression {
    AstExpression::Var { identifier: name.to_string(), span: sp() }
}

fn constant(c: i32) -> AstExpression {
    AstExpression::Constant { constant: c, span: sp() }
}

fn binary(operator: BinaryOperator, l: AstExpression, r: AstExpression) -> AstExpression {
    AstExpression::Binary { operator, left: Box::new(l), right: Box::new(r), span: sp() }
}

fn show(instrs: &[TacInstruction]) -> Vec<String> {
    instrs.iter().map(|i| format!("{:?}", i)).collect()
}

#[test]
fn return_of_sum_ends_with_default_return() {
    let mut g = TacGenerator::new();
    let body = AstBlock {
        block_items: vec![AstBlockItem::Statement(AstStatement::Return {
            expression: binary(BinaryOperator::Add, constant(2), constant(3)),
            span: sp(),
        })],
        span: sp(),
    };
    lower_function_body(&mut g, body);
    assert_eq!(
        show(&g.instructions),
        vec![
            "Binary { operator: Add, src1: Constant(2), src2: Constant(3), dst: Var(\"tmp.0\") }",
            "Return { val: Var(\"tmp.0\") }",
            "Return { val: Constant(0) }",
        ]
    );
    assert_eq!(g.temp_gen.counter, 1);
}

#[test]
fn empty_body_lowers_to_a_return() {
    let mut g = TacGenerator::new();
    lower_function_body(&mut g, AstBlock { block_items: vec![], span: sp() });
    assert_eq!(show(&g.instructions), vec!["Return { val: Constant(0) }"]);
}

#[test]
fn logical_and_short_circuits() {
    let mut g = TacGenerator::new();
    let v = lower_expression(&mut g, binary(BinaryOperator::And, var("a.0"), var("b.1")));
    assert_eq!(format!("{:?}", v), "Var(\"tmp.2\")");
    assert_eq!(
        show(&g.instructions),
        vec![
            "JumpIfZero { condition: Var(\"a.0\"), target: \"and_false.0\" }",
            "JumpIfZero { condition: Var(\"b.1\"), target: \"and_false.0\" }",
            "Copy { src: Constant(1), dst: Var(\"tmp.2\") }",
            "Jump { target: \"and_end.1\" }",
            "Label(\"and_false.0\")",
            "Copy { src: Constant(0), dst: Var(\"tmp.2\") }",
            "Label(\"and_end.1\")",
        ]
    );
}

#[test]
fn logical_or_short_circuits() {
    let mut g = TacGenerator::new();
    lower_expression(&mut g, binary(BinaryOperator::Or, constant(0), constant(5)));
    assert_eq!(
        show(&g.instructions),
        vec![
            "JumpIfNotZero { condition: Constant(0), target: \"or_true.0\" }",
            "JumpIfNotZero { condition: Constant(5), target: \"or_true.0\" }",
            "Copy { src: Constant(0), dst: Var(\"tmp.2\") }",
            "Jump { target: \"or_end.1\" }",
            "Label(\"or_true.0\")",
            "Copy { src: Constant(1), dst: Var(\"tmp.2\") }",
            "Label(\"or_end.1\")",
        ]
    );
}

#[test]
fn operands_evaluated_left_to_right() {
    let mut g = TacGenerator::new();
    let e = binary(
        BinaryOperator::Multiply,
        AstExpression::Unary {
            operator: UnaryOperator::Negate,
            operand: Box::new(constant(1)),
            span: sp(),
        },
        AstExpression::Unary {
            operator: UnaryOperator::Complement,
            operand: Box::new(constant(2)),
            span: sp(),
        },
    );
    let v = lower_expression(&mut g, e);
    assert_eq!(format!("{:?}", v), "Var(\"tmp.2\")");
    assert_eq!(
        show(&g.instructions),
        vec![
            "Unary { operator: Negate, src: Constant(1), dst: Var(\"tmp.0\") }",
            "Unary { operator: Complement, src: Constant(2), dst: Var(\"tmp.1\") }",
            "Binary { operator: Multiply, src1: Var(\"tmp.0\"), src2: Var(\"tmp.1\"), dst: Var(\"tmp.2\") }",
        ]
    );
}

#[test]
fn declaration_with_initializer_copies_into_name() {
    let mut g = TacGenerator::new();
    let body = AstBlock {
        block_items: vec![
            AstBlockItem::Declaration(AstDeclaration {
                name: "x.0".to_string(),
                init: Some(constant(7)),
                span: sp(),
            }),
            AstBlockItem::Declaration(AstDeclaration { name: "y.1".to_string(), init: None, span: sp() }),
        ],
        span: sp(),
    };
    lower_function_body(&mut g, body);
    assert_eq!(
        show(&g.instructions),
        vec![
            "Copy { src: Constant(7), dst: Var(\"x.0\") }",
            "Return { val: Constant(0) }",
        ]
    );
}

#[test]
fn while_loop_with_break_uses_loop_labels() {
    let mut g = TacGenerator::new();
    lower_statement(
        &mut g,
        AstStatement::While {
            condition: var("i.0"),
            body: Box::new(AstStatement::Break { label: "L".to_string(), span: sp() }),
            label: "L".to_string(),
            span: sp(),
        },
    );
    assert_eq!(
        show(&g.instructions),
        vec![
            "Label(\"continue_L\")",
            "JumpIfZero { condition: Var(\"i.0\"), target: \"break_L\" }",
            "Jump { target: \"break_L\" }",
            "Jump { target: \"continue_L\" }",
            "Label(\"break_L\")",
        ]
    );
}

#[test]
fn if_else_branches_over_labels() {
    let mut g = TacGenerator::new();
    lower_statement(
        &mut g,
        AstStatement::If {
            condition: var("c.0"),
            then_branch: Box::new(AstStatement::Return { expression: constant(1), span: sp() }),
            else_branch: Some(Box::new(AstStatement::Return { expression: constant(2), span: sp() })),
            span: sp(),
        },
    );
    assert_eq!(
        show(&g.instructions),
        vec![
            "JumpIfZero { condition: Var(\"c.0\"), target: \"if_else.0\" }",
            "Return { val: Constant(1) }",
            "Jump { target: \"if_end.1\" }",
            "Label(\"if_else.0\")",
            "Return { val: Constant(2) }",
            "Label(\"if_end.1\")",
        ]
    );
}

#[test]
fn continue_outside_loop_still_lowers() {
    let mut g = TacGenerator::new();
    let body = AstBlock {
        block_items: vec![AstBlockItem::Statement(AstStatement::Continue {
            label: String::new(),
            span: sp(),
        })],
        span: sp(),
    };
    lower_function_body(&mut g, body);
    assert_eq!(g.instructions.len(), 2);
    assert!(matches!(g.instructions[1], TacInstruction::Return { val: TacVal::Constant(0) }));
}

use minicc::ast::{
    AstBlock, AstBlockItem, AstDeclaration, AstExpression, AstForInit, AstFunctionDefinition,
    AstProgram, AstStatement, BinaryOperator, Span,
};
use minicc::context::{SemanticContext, TempGenerator};
use minicc::diagnostics::{DiagnosticKind, Severity};
use minicc::resolution::VariableResolutionCheck;

fn sp() -> Span {
    Span::new(0, 0)
}

fn var(name: &str) -> AstExpression {
    AstExpression::Var { identifier: name.to_string(), span: sp() }
}

fn constant(c: i32) -> AstExpression {
    AstExpression::Constant { constant: c, span: sp() }
}

fn decl(name: &str, init: Option<AstExpression>) -> AstBlockItem {
    AstBlockItem::Declaration(AstDeclaration { name: name.to_string(), init, span: sp() })
}

fn stmt(s: AstStatement) -> AstBlockItem {
    AstBlockItem::Statement(s)
}

fn block(items: Vec<AstBlockItem>) -> AstBlock {
    AstBlock { block_items: items, span: sp() }
}

fn program(items: Vec<AstBlockItem>) -> AstProgram {
    AstProgram {
        function_definition: AstFunctionDefinition {
            name: "main".to_string(),
            body: block(items),
            span: sp(),
        },
    }
}

fn resolve(items: Vec<AstBlockItem>) -> (AstProgram, SemanticContext) {
    let mut p = program(items);
    let mut ctx = SemanticContext::new();
    VariableResolutionCheck::analyze(&mut p, &mut ctx);
    (p, ctx)
}

fn var_name(e: &AstExpression) -> String {
    match e {
        AstExpression::Var { identifier, .. } => identifier.clone(),
        other => panic!("not a variable: {:?}", other),
    }
}

fn custom_message(kind: &DiagnosticKind) -> String {
    match kind {
        DiagnosticKind::Custom(m) => m.clone(),
        other => panic!("not a custom diagnostic: {:?}", other),
    }
}

#[test]
fn shadowed_initializer_refers_to_inner_binding() {
    // int main(void){ int x = 1; { int x = x + 1; return x; } }
    let inner = block(vec![
        decl(
            "x",
            Some(AstExpression::Binary {
                operator: BinaryOperator::Add,
                left: Box::new(var("x")),
                right: Box::new(constant(1)),
                span: sp(),
            }),
        ),
        stmt(AstStatement::Return { expression: var("x"), span: sp() }),
    ]);
    let (p, ctx) = resolve(vec![
        decl("x", Some(constant(1))),
        stmt(AstStatement::Compound { block: inner, span: sp() }),
    ]);
    assert!(ctx.diagnostics.is_empty());
    let items = &p.function_definition.body.block_items;
    let outer_name = match &items[0] {
        AstBlockItem::Declaration(d) => d.name.clone(),
        _ => panic!("expected a declaration"),
    };
    assert_eq!(outer_name, "x.0");
    let inner_items = match &items[1] {
        AstBlockItem::Statement(AstStatement::Compound { block, .. }) => &block.block_items,
        _ => panic!("expected a block"),
    };
    let inner_decl = match &inner_items[0] {
        AstBlockItem::Declaration(d) => d,
        _ => panic!("expected a declaration"),
    };
    assert_eq!(inner_decl.name, "x.1");
    assert_ne!(inner_decl.name, outer_name);
    match &inner_decl.init {
        Some(AstExpression::Binary { left, .. }) => assert_eq!(var_name(left), "x.1"),
        _ => panic!("expected a binary initializer"),
    }
    match &inner_items[1] {
        AstBlockItem::Statement(AstStatement::Return { expression, .. }) => {
            assert_eq!(var_name(expression), "x.1")
        }
        _ => panic!("expected a return"),
    }
}

#[test]
fn continue_at_top_level_reported_once() {
    let (_, ctx) = resolve(vec![stmt(AstStatement::Continue {
        label: String::new(),
        span: Span::new(3, 12),
    })]);
    assert_eq!(ctx.diagnostics.len(), 1);
    let d = &ctx.diagnostics[0];
    assert_eq!(d.severity, Severity::Error);
    assert_eq!(d.span, Span::new(3, 12));
    assert_eq!(custom_message(&d.kind), "continue used outside of the loop");
}

#[test]
fn break_at_top_level_reported() {
    let (_, ctx) = resolve(vec![stmt(AstStatement::Break { label: String::new(), span: sp() })]);
    assert_eq!(ctx.diagnostics.len(), 1);
    assert_eq!(custom_message(&ctx.diagnostics[0].kind), "break used outside of the loop");
}

#[test]
fn break_inside_loop_through_block_not_reported() {
    let body = AstStatement::Compound {
        block: block(vec![stmt(AstStatement::Compound {
            block: block(vec![
                stmt(AstStatement::Break { label: String::new(), span: sp() }),
                stmt(AstStatement::Continue { label: String::new(), span: sp() }),
            ]),
            span: sp(),
        })]),
        span: sp(),
    };
    let (_, ctx) = resolve(vec![stmt(AstStatement::While {
        condition: constant(1),
        body: Box::new(body),
        label: String::new(),
        span: sp(),
    })]);
    assert!(ctx.diagnostics.is_empty());
    assert_eq!(ctx.loop_depth, 0);
}

#[test]
fn duplicate_declaration_reported_once_with_distinct_names() {
    let (p, ctx) = resolve(vec![decl("a", None), decl("a", Some(constant(2)))]);
    assert_eq!(ctx.diagnostics.len(), 1);
    match &ctx.diagnostics[0].kind {
        DiagnosticKind::DuplicateVariableDeclaration { name } => assert_eq!(name, "a"),
        other => panic!("unexpected {:?}", other),
    }
    let names: Vec<String> = p
        .function_definition
        .body
        .block_items
        .iter()
        .map(|i| match i {
            AstBlockItem::Declaration(d) => d.name.clone(),
            _ => panic!("expected a declaration"),
        })
        .collect();
    assert_eq!(names, vec!["a.0".to_string(), "a.1".to_string()]);
}

#[test]
fn same_name_in_nested_block_is_no_duplicate() {
    let (_, ctx) = resolve(vec![
        decl("a", None),
        stmt(AstStatement::Compound { block: block(vec![decl("a", None)]), span: sp() }),
    ]);
    assert!(ctx.diagnostics.is_empty());
}

#[test]
fn reference_after_block_restores_outer_binding() {
    let (p, ctx) = resolve(vec![
        decl("y", None),
        stmt(AstStatement::Compound {
            block: block(vec![
                decl("y", None),
                stmt(AstStatement::Expression { expression: var("y"), span: sp() }),
            ]),
            span: sp(),
        }),
        stmt(AstStatement::Return { expression: var("y"), span: sp() }),
    ]);
    assert!(ctx.diagnostics.is_empty());
    let items = &p.function_definition.body.block_items;
    match &items[1] {
        AstBlockItem::Statement(AstStatement::Compound { block, .. }) => {
            match &block.block_items[1] {
                AstBlockItem::Statement(AstStatement::Expression { expression, .. }) => {
                    assert_eq!(var_name(expression), "y.1")
                }
                _ => panic!("expected an expression statement"),
            }
        }
        _ => panic!("expected a block"),
    }
    match &items[2] {
        AstBlockItem::Statement(AstStatement::Return { expression, .. }) => {
            assert_eq!(var_name(expression), "y.0")
        }
        _ => panic!("expected a return"),
    }
}

#[test]
fn undeclared_variable_reported_and_kept() {
    let (p, ctx) = resolve(vec![stmt(AstStatement::Return { expression: var("z"), span: sp() })]);
    assert_eq!(ctx.diagnostics.len(), 1);
    match &ctx.diagnostics[0].kind {
        DiagnosticKind::UseOfUndeclaredVariable { name } => assert_eq!(name, "z"),
        other => panic!("unexpected {:?}", other),
    }
    match &p.function_definition.body.block_items[0] {
        AstBlockItem::Statement(AstStatement::Return { expression, .. }) => {
            assert_eq!(var_name(expression), "z")
        }
        _ => panic!("expected a return"),
    }
}

#[test]
fn assignment_to_constant_is_invalid_lvalue() {
    let (p, ctx) = resolve(vec![stmt(AstStatement::Expression {
        expression: AstExpression::Assignment {
            left: Box::new(AstExpression::Constant { constant: 1, span: Span::new(5, 6) }),
            right: Box::new(constant(2)),
            span: sp(),
        },
        span: sp(),
    })]);
    assert_eq!(ctx.diagnostics.len(), 1);
    assert_eq!(ctx.diagnostics[0].span, Span::new(5, 6));
    assert_eq!(custom_message(&ctx.diagnostics[0].kind), "invalid lvalue in assignment");
    match &p.function_definition.body.block_items[0] {
        AstBlockItem::Statement(AstStatement::Expression {
            expression: AstExpression::Assignment { .. },
            ..
        }) => {}
        _ => panic!("the assignment must be kept"),
    }
}

#[test]
fn for_header_declaration_visible_in_loop_only() {
    let for_stmt = AstStatement::For {
        for_init: AstForInit::InitDeclaration(AstDeclaration {
            name: "i".to_string(),
            init: Some(constant(0)),
            span: sp(),
        }),
        condition: Some(var("i")),
        post: Some(AstExpression::Assignment {
            left: Box::new(var("i")),
            right: Box::new(constant(1)),
            span: sp(),
        }),
        body: Box::new(AstStatement::Break { label: String::new(), span: sp() }),
        label: String::new(),
        span: sp(),
    };
    let (p, ctx) = resolve(vec![
        stmt(for_stmt),
        stmt(AstStatement::Return { expression: var("i"), span: sp() }),
    ]);
    assert_eq!(ctx.diagnostics.len(), 1);
    match &ctx.diagnostics[0].kind {
        DiagnosticKind::UseOfUndeclaredVariable { name } => assert_eq!(name, "i"),
        other => panic!("unexpected {:?}", other),
    }
    match &p.function_definition.body.block_items[0] {
        AstBlockItem::Statement(AstStatement::For { for_init, condition, .. }) => {
            match for_init {
                AstForInit::InitDeclaration(d) => assert_eq!(d.name, "i.0"),
                _ => panic!("expected a declaration"),
            }
            assert_eq!(var_name(condition.as_ref().unwrap()), "i.0");
        }
        _ => panic!("expected a for loop"),
    }
}

#[test]
fn errors_everywhere_are_all_reported() {
    let (_, ctx) = resolve(vec![
        stmt(AstStatement::Break { label: String::new(), span: sp() }),
        stmt(AstStatement::Return { expression: var("q"), span: sp() }),
        stmt(AstStatement::Continue { label: String::new(), span: sp() }),
    ]);
    assert_eq!(ctx.diagnostics.len(), 3);
    assert!(ctx.diagnostics.iter().all(|d| d.is_error()));
}

#[test]
fn temp_names_carry_counter_in_decimal() {
    let mut g = TempGenerator::new();
    assert_eq!(g.temp_from("x".to_string()), "x.0");
    g.counter = 10;
    assert_eq!(g.temp_from("x".to_string()), "x.10");
    g.counter = 1234567;
    assert_eq!(g.temp_from("tmp".to_string()), "tmp.1234567");
    assert_eq!(g.counter, 1234568);
}

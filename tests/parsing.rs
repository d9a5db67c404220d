use minicc::ast::{AstExpression, AstStatement, BinaryOperator, Span, UnaryOperator};
use minicc::diagnostics::DiagnosticKind;
use minicc::parser::{ExpressionParser, ParserContext, ParserRules, get_precedence, parse_return};
use minicc::token::{KeywordKind, OperatorKind, PunctuationKind, Token, TokenKind};

fn toks(kinds: Vec<TokenKind>) -> Vec<Token> {
    kinds
        .into_iter()
        .enumerate()
        .map(|(i, k)| Token::new(k, Span::new(i, i + 1)))
        .collect()
}

fn c(v: i32) -> TokenKind {
    TokenKind::Constant(v)
}

fn op(o: OperatorKind) -> TokenKind {
    TokenKind::Operator(o)
}

fn p(k: PunctuationKind) -> TokenKind {
    TokenKind::Punctuation(k)
}

fn show(e: &AstExpression) -> String {
    match e {
        AstExpression::Constant { constant, .. } => format!("{}", constant),
        AstExpression::Var { identifier, .. } => identifier.clone(),
        AstExpression::Unary { operator, operand, .. } => format!("({:?} {})", operator, show(operand)),
        AstExpression::Binary { operator, left, right, .. } => {
            format!("({:?} {} {})", operator, show(left), show(right))
        }
        AstExpression::Assignment { left, right, .. } => format!("(= {} {})", show(left), show(right)),
        AstExpression::Conditional { condition, then_branch, else_branch, .. } => {
            format!("(? {} {} {})", show(condition), show(then_branch), show(else_branch))
        }
    }
}

#[test]
fn precedence_table() {
    assert_eq!(get_precedence(&OperatorKind::Asterisk), 50);
    assert_eq!(get_precedence(&OperatorKind::Slash), 50);
    assert_eq!(get_precedence(&OperatorKind::Percent), 50);
    assert_eq!(get_precedence(&OperatorKind::Plus), 45);
    assert_eq!(get_precedence(&OperatorKind::Minus), 45);
    assert_eq!(get_precedence(&OperatorKind::LessThan), 35);
    assert_eq!(get_precedence(&OperatorKind::GreaterEqual), 35);
    assert_eq!(get_precedence(&OperatorKind::EqualEqual), 30);
    assert_eq!(get_precedence(&OperatorKind::NotEqual), 30);
    assert_eq!(get_precedence(&OperatorKind::LogicalAnd), 10);
    assert_eq!(get_precedence(&OperatorKind::LogicalOr), 5);
    assert_eq!(get_precedence(&OperatorKind::Tilde), 0);
    assert_eq!(get_precedence(&OperatorKind::Equal), 0);
}

#[test]
fn multiplication_binds_tighter_than_addition() {
    let mut parser = ParserRules::new(toks(vec![
        c(1),
        op(OperatorKind::Plus),
        c(2),
        op(OperatorKind::Asterisk),
        c(3),
    ]));
    let e = parser.parse_expression().unwrap();
    assert_eq!(show(&e), "(Add 1 (Multiply 2 3))");
    assert_eq!(parser.source_tokens.position, 5);
    assert_eq!(e.get_span(), Span::new(0, 5));
}

#[test]
fn subtraction_associates_left() {
    let mut parser = ParserRules::new(toks(vec![
        c(1),
        op(OperatorKind::Minus),
        c(2),
        op(OperatorKind::Minus),
        c(3),
    ]));
    let e = parser.parse_expression().unwrap();
    assert_eq!(show(&e), "(Subtract (Subtract 1 2) 3)");
}

#[test]
fn prefix_operators_and_parentheses() {
    let mut parser = ParserRules::new(toks(vec![
        op(OperatorKind::Minus),
        p(PunctuationKind::OpenParen),
        c(4),
        op(OperatorKind::LogicalOr),
        op(OperatorKind::Tilde),
        c(5),
        p(PunctuationKind::CloseParen),
        op(OperatorKind::Asterisk),
        c(2),
    ]));
    let e = parser.parse_expression().unwrap();
    assert_eq!(show(&e), "(Multiply (Negate (Or 4 (Complement 5))) 2)");
    match &e {
        AstExpression::Binary { operator, left, .. } => {
            assert_eq!(*operator, BinaryOperator::Multiply);
            match left.as_ref() {
                AstExpression::Unary { operator, .. } => assert_eq!(*operator, UnaryOperator::Negate),
                _ => panic!("expected a unary operand"),
            }
        }
        _ => panic!("expected a binary expression"),
    }
}

#[test]
fn stops_before_looser_operator() {
    let mut parser = ParserRules::new(toks(vec![
        c(1),
        op(OperatorKind::LogicalAnd),
        c(2),
    ]));
    let e = parser.parse_binary_expression(30).unwrap();
    assert_eq!(show(&e), "1");
    assert_eq!(parser.source_tokens.position, 1);
}

#[test]
fn stops_at_semicolon() {
    let mut parser = ParserRules::new(toks(vec![c(7), p(PunctuationKind::Semicolon)]));
    let e = parser.parse_expression().unwrap();
    assert_eq!(show(&e), "7");
    assert_eq!(parser.source_tokens.position, 1);
}

#[test]
fn unknown_token_reported_with_note() {
    let mut parser = ParserRules::new(toks(vec![p(PunctuationKind::Semicolon)]));
    assert!(parser.parse_expression().is_none());
    assert_eq!(parser.diagnostics.len(), 1);
    let d = &parser.diagnostics[0];
    assert!(matches!(d.kind, DiagnosticKind::UnknownToken(_)));
    assert_eq!(d.notes.len(), 1);
    assert_eq!(d.notes[0].message, "expected an expression here");
}

#[test]
fn unclosed_parenthesis_fails() {
    let mut parser = ParserRules::new(toks(vec![p(PunctuationKind::OpenParen), c(1)]));
    assert!(parser.parse_expression().is_none());
}

#[test]
fn assignment_operator_is_not_a_binary_operator() {
    let mut parser = ParserRules::new(toks(vec![c(1), op(OperatorKind::Equal), c(2)]));
    assert!(parser.parse_expression().is_none());
}

#[test]
fn return_statement_parsed_with_span() {
    let mut parser = ParserRules::new(toks(vec![
        TokenKind::Keyword(KeywordKind::Return),
        c(2),
        op(OperatorKind::Plus),
        c(3),
        p(PunctuationKind::Semicolon),
        p(PunctuationKind::CloseBrace),
    ]));
    let mut ctx = ParserContext::new();
    let s = parse_return(&mut parser, &mut ctx).unwrap();
    match s {
        AstStatement::Return { expression, span } => {
            assert_eq!(show(&expression), "(Add 2 3)");
            assert_eq!(span, Span::new(0, 6));
        }
        _ => panic!("expected a return"),
    }
    assert_eq!(parser.source_tokens.position, 5);
    assert!(ctx.diagnostics.is_empty());
}

#[test]
fn return_without_semicolon_reported() {
    let mut parser = ParserRules::new(toks(vec![
        TokenKind::Keyword(KeywordKind::Return),
        c(2),
        p(PunctuationKind::CloseBrace),
    ]));
    let mut ctx = ParserContext::new();
    assert!(parse_return(&mut parser, &mut ctx).is_none());
    assert_eq!(ctx.diagnostics.len(), 1);
}

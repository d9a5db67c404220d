//! Parsing rules for expressions and `return` statements over a token stream.
use vstd::prelude::*;

use crate::ast::{AstExpression, AstStatement, BinaryOperator, ExprV, Span, StmtV, UnaryOperator, span_of};
use crate::diagnostics::{Diagnostic, DiagnosticKind, DiagV};
use crate::token::{KeywordKind, OperatorKind, PunctuationKind, Token, TokenKind};

verus! {

pub type ParseResult<T> = Option<T>;

/// Tokens and the position of the next one to read.
#[derive(Debug)]
pub struct TokenStream {
    pub tokens: Vec<Token>,
    pub position: usize,
}

impl TokenStream {
    pub fn new(tokens: Vec<Token>) -> (r: TokenStream)
        ensures
            r.tokens@ == tokens@,
            r.position == 0,
    {
        TokenStream { tokens, position: 0 }
    }

    pub fn peek(&self) -> (r: Option<Token>)
        ensures
            r == if self.position < self.tokens@.len() {
                Some(self.tokens@[self.position as int])
            } else {
                None::<Token>
            },
    {
        if self.position < self.tokens.len() {
            Some(self.tokens[self.position])
        } else {
            None
        }
    }

    /// Reads the next token, if there is one.
    pub fn consume(&mut self) -> (r: Option<Token>)
        ensures
            final(self).tokens@ == old(self).tokens@,
            old(self).position < old(self).tokens@.len() ==> r == Some(
                old(self).tokens@[old(self).position as int],
            ) && final(self).position == old(self).position + 1,
            old(self).position >= old(self).tokens@.len() ==> r is None && final(self).position
                == old(self).position,
    {
        if self.position < self.tokens.len() {
            let t = self.tokens[self.position];
            self.position = self.position + 1;
            Some(t)
        } else {
            None
        }
    }
}

/// How tightly a binary operator binds; 0 for a token that is no binary operator.
pub open spec fn precedence(op: OperatorKind) -> u8 {
    match op {
        OperatorKind::Asterisk | OperatorKind::Slash | OperatorKind::Percent => 50,
        OperatorKind::Plus | OperatorKind::Minus => 45,
        OperatorKind::LessThan | OperatorKind::LessEqual | OperatorKind::GreaterThan
        | OperatorKind::GreaterEqual => 35,
        OperatorKind::EqualEqual | OperatorKind::NotEqual => 30,
        OperatorKind::LogicalAnd => 10,
        OperatorKind::LogicalOr => 5,
        _ => 0,
    }
}

pub fn get_precedence(operator: &OperatorKind) -> (r: u8)
    ensures
        r == precedence(*operator),
{
    match operator {
        OperatorKind::Asterisk => 50,
        OperatorKind::Slash => 50,
        OperatorKind::Percent => 50,
        OperatorKind::Plus => 45,
        OperatorKind::Minus => 45,
        OperatorKind::LessThan => 35,
        OperatorKind::LessEqual => 35,
        OperatorKind::GreaterThan => 35,
        OperatorKind::GreaterEqual => 35,
        OperatorKind::EqualEqual => 30,
        OperatorKind::NotEqual => 30,
        OperatorKind::LogicalAnd => 10,
        OperatorKind::LogicalOr => 5,
        _ => 0,
    }
}

pub open spec fn unary_of(op: OperatorKind) -> Option<UnaryOperator> {
    match op {
        OperatorKind::Tilde => Some(UnaryOperator::Complement),
        OperatorKind::Exclamation => Some(UnaryOperator::Not),
        OperatorKind::Minus => Some(UnaryOperator::Negate),
        _ => None,
    }
}

pub open spec fn binary_of(op: OperatorKind) -> Option<BinaryOperator> {
    match op {
        OperatorKind::Plus => Some(BinaryOperator::Add),
        OperatorKind::Minus => Some(BinaryOperator::Subtract),
        OperatorKind::Asterisk => Some(BinaryOperator::Multiply),
        OperatorKind::Slash => Some(BinaryOperator::Divide),
        OperatorKind::Percent => Some(BinaryOperator::Remainder),
        OperatorKind::LogicalAnd => Some(BinaryOperator::And),
        OperatorKind::LogicalOr => Some(BinaryOperator::Or),
        OperatorKind::EqualEqual => Some(BinaryOperator::Equal),
        OperatorKind::NotEqual => Some(BinaryOperator::NotEqual),
        OperatorKind::LessThan => Some(BinaryOperator::LessThan),
        OperatorKind::LessEqual => Some(BinaryOperator::LessOrEqual),
        OperatorKind::GreaterThan => Some(BinaryOperator::GreaterThan),
        OperatorKind::GreaterEqual => Some(BinaryOperator::GreaterOrEqual),
        _ => None,
    }
}

impl OperatorKind {
    pub fn to_unary(&self) -> (r: Option<UnaryOperator>)
        ensures
            r == unary_of(*self),
    {
        match self {
            OperatorKind::Tilde => Some(UnaryOperator::Complement),
            OperatorKind::Exclamation => Some(UnaryOperator::Not),
            OperatorKind::Minus => Some(UnaryOperator::Negate),
            _ => None,
        }
    }

    pub fn to_binary(&self) -> (r: Option<BinaryOperator>)
        ensures
            r == binary_of(*self),
    {
        match self {
            OperatorKind::Plus => Some(BinaryOperator::Add),
            OperatorKind::Minus => Some(BinaryOperator::Subtract),
            OperatorKind::Asterisk => Some(BinaryOperator::Multiply),
            OperatorKind::Slash => Some(BinaryOperator::Divide),
            OperatorKind::Percent => Some(BinaryOperator::Remainder),
            OperatorKind::LogicalAnd => Some(BinaryOperator::And),
            OperatorKind::LogicalOr => Some(BinaryOperator::Or),
            OperatorKind::EqualEqual => Some(BinaryOperator::Equal),
            OperatorKind::NotEqual => Some(BinaryOperator::NotEqual),
            OperatorKind::LessThan => Some(BinaryOperator::LessThan),
            OperatorKind::LessEqual => Some(BinaryOperator::LessOrEqual),
            OperatorKind::GreaterThan => Some(BinaryOperator::GreaterThan),
            OperatorKind::GreaterEqual => Some(BinaryOperator::GreaterOrEqual),
            _ => None,
        }
    }
}

pub open spec fn combine(a: Span, b: Span) -> Span {
    Span {
        start: if a.start <= b.start { a.start } else { b.start },
        end: if a.end >= b.end { a.end } else { b.end },
    }
}

/// The expression that starts at `pos` and binds no looser than `min_prec`,
/// with the position after it; `None` where the tokens hold no such expression.
/// A prefix operator binds its operand at precedence 100; a binary operator of
/// precedence `p` takes a right operand of precedence `p + 1`, which makes it
/// associate to the left.
pub open spec fn parse_expr(toks: Seq<Token>, pos: int, min_prec: int) -> Option<(ExprV, int)>
    decreases toks.len() - pos, 1int,
{
    if pos < 0 || pos >= toks.len() {
        None
    } else {
        let tok = toks[pos];
        match tok.kind {
            TokenKind::Constant(c) => parse_tail(
                toks,
                ExprV::Constant { constant: c, span: tok.span },
                pos + 1,
                min_prec,
            ),
            TokenKind::Operator(op) => {
                if op == OperatorKind::Tilde || op == OperatorKind::Exclamation || op
                    == OperatorKind::Minus {
                    match parse_expr(toks, pos + 1, 100) {
                        Some((operand, p)) => if pos < p <= toks.len() {
                            parse_tail(
                                toks,
                                ExprV::Unary {
                                    operator: unary_of(op)->0,
                                    operand: Box::new(operand),
                                    span: combine(tok.span, span_of(operand)),
                                },
                                p,
                                min_prec,
                            )
                        } else {
                            None
                        },
                        None => None,
                    }
                } else {
                    None
                }
            },
            TokenKind::Punctuation(PunctuationKind::OpenParen) => {
                match parse_expr(toks, pos + 1, 0) {
                    Some((inner, p)) => if pos < p < toks.len() && toks[p].kind
                        == TokenKind::Punctuation(PunctuationKind::CloseParen) {
                        parse_tail(toks, inner, p + 1, min_prec)
                    } else {
                        None
                    },
                    None => None,
                }
            },
            _ => None,
        }
    }
}

/// Continues an expression whose left operand `lhs` ends before `pos`.
pub open spec fn parse_tail(toks: Seq<Token>, lhs: ExprV, pos: int, min_prec: int) -> Option<
    (ExprV, int),
>
    decreases toks.len() - pos, 0int,
{
    if pos < 0 || pos >= toks.len() {
        Some((lhs, pos))
    } else {
        match toks[pos].kind {
            TokenKind::Operator(op) => {
                if (precedence(op) as int) < min_prec {
                    Some((lhs, pos))
                } else {
                    match parse_expr(toks, pos + 1, precedence(op) + 1) {
                        Some((rhs, p)) => if pos < p <= toks.len() && binary_of(op) is Some {
                            parse_tail(
                                toks,
                                ExprV::Binary {
                                    operator: binary_of(op)->0,
                                    left: Box::new(lhs),
                                    right: Box::new(rhs),
                                    span: combine(span_of(lhs), span_of(rhs)),
                                },
                                p,
                                min_prec,
                            )
                        } else {
                            None
                        },
                        None => None,
                    }
                }
            },
            _ => Some((lhs, pos)),
        }
    }
}

/// The `return` statement that starts at `pos`, with the position of the
/// token after its semicolon; a token must follow the semicolon, as the
/// statement's span runs up to it.
pub open spec fn parse_return_stmt(toks: Seq<Token>, pos: int) -> Option<(StmtV, int)> {
    if 0 <= pos < toks.len() && toks[pos].kind == TokenKind::Keyword(KeywordKind::Return) {
        match parse_expr(toks, pos + 1, 0) {
            Some((e, p)) => if 0 <= p && p + 1 < toks.len() && toks[p].kind == TokenKind::Punctuation(
                PunctuationKind::Semicolon,
            ) {
                Some(
                    (
                        StmtV::Return { expression: e, span: combine(toks[pos].span, toks[p + 1].span) },
                        p + 1,
                    ),
                )
            } else {
                None
            },
            None => None,
        }
    } else {
        None
    }
}

/// Where the statement rules report what they reject.
#[derive(Debug)]
pub struct ParserContext {
    pub diagnostics: Vec<Diagnostic>,
}

impl ParserContext {
    pub fn new() -> (r: ParserContext)
        ensures
            r.diagnostics@.len() == 0,
    {
        ParserContext { diagnostics: Vec::new() }
    }
}

/// The parser's state: the token stream and the diagnostics of the
/// expression rules.
#[derive(Debug)]
pub struct ParserRules {
    pub source_tokens: TokenStream,
    pub diagnostics: Vec<Diagnostic>,
}

fn unknown_token(tok: Token) -> (r: Diagnostic)
    ensures
        r@.kind == crate::diagnostics::KindV::UnknownToken(tok),
        r@.span == tok.span,
{
    Diagnostic::error(tok.span, DiagnosticKind::UnknownToken(tok))
}

impl ParserRules {
    pub fn new(tokens: Vec<Token>) -> (r: ParserRules)
        ensures
            r.toks() == tokens@,
            r.pos() == 0,
            r.diagnostics@.len() == 0,
    {
        ParserRules { source_tokens: TokenStream::new(tokens), diagnostics: Vec::new() }
    }

    pub open spec fn toks(&self) -> Seq<Token> {
        self.source_tokens.tokens@
    }

    pub open spec fn pos(&self) -> int {
        self.source_tokens.position as int
    }

    /// Reads the next token if it is of kind `kind`; otherwise reports it to
    /// `ctx` and reads nothing.
    pub fn expect(&mut self, ctx: &mut ParserContext, kind: TokenKind) -> (r: Option<Token>)
        ensures
            final(self).toks() == old(self).toks(),
            final(self).diagnostics@ == old(self).diagnostics@,
            if old(self).pos() < old(self).toks().len() && old(self).toks()[old(self).pos()].kind
                == kind {
                r == Some(old(self).toks()[old(self).pos()]) && final(self).pos() == old(self).pos()
                    + 1 && final(ctx).diagnostics@ == old(ctx).diagnostics@
            } else {
                r is None && final(self).pos() == old(self).pos()
            },
    {
        match self.source_tokens.peek() {
            Some(tok) => {
                if tok.kind == kind {
                    self.source_tokens.consume();
                    Some(tok)
                } else {
                    ctx.diagnostics.push(unknown_token(tok));
                    None
                }
            },
            None => None,
        }
    }

    /// Reads the next token if it is of kind `kind`; otherwise reports it.
    fn expect_own(&mut self, kind: TokenKind) -> (r: Option<Token>)
        ensures
            final(self).toks() == old(self).toks(),
            if old(self).pos() < old(self).toks().len() && old(self).toks()[old(self).pos()].kind
                == kind {
                r == Some(old(self).toks()[old(self).pos()]) && final(self).pos() == old(self).pos()
                    + 1 && final(self).diagnostics@ == old(self).diagnostics@
            } else {
                r is None && final(self).pos() == old(self).pos()
            },
    {
        match self.source_tokens.peek() {
            Some(tok) => {
                if tok.kind == kind {
                    self.source_tokens.consume();
                    Some(tok)
                } else {
                    self.diagnostics.push(unknown_token(tok));
                    None
                }
            },
            None => None,
        }
    }

    fn report_unknown(&mut self, tok: Token)
        ensures
            final(self).toks() == old(self).toks(),
            final(self).pos() == old(self).pos(),
            final(self).diagnostics@.len() == old(self).diagnostics@.len() + 1,
    {
        let note = String::from_str("expected an expression here");
        let d = unknown_token(tok).with(tok.span, note);
        self.diagnostics.push(d);
    }

    fn parse_binary_at(&mut self, min_prec: u8) -> (r: ParseResult<AstExpression>)
        requires
            old(self).pos() <= old(self).toks().len(),
        ensures
            final(self).toks() == old(self).toks(),
            final(self).pos() <= final(self).toks().len(),
            match r {
                Some(e) => parse_expr(old(self).toks(), old(self).pos(), min_prec as int) == Some(
                    (e@, final(self).pos()),
                ) && old(self).pos() < final(self).pos() && final(self).diagnostics@ == old(
                    self,
                ).diagnostics@,
                None => parse_expr(old(self).toks(), old(self).pos(), min_prec as int) is None,
            },
        decreases old(self).toks().len() - old(self).pos(),
    {
        let ghost toks = self.toks();
        let ghost pos0 = self.pos();
        let ghost diags0 = self.diagnostics@;
        let tok = match self.source_tokens.peek() {
            Some(t) => t,
            None => {
                return None;
            },
        };
        let mut lhs = match tok.kind {
            TokenKind::Constant(c) => {
                self.source_tokens.consume();
                AstExpression::Constant { constant: c, span: tok.span }
            },
            TokenKind::Operator(op) => {
                if op == OperatorKind::Tilde || op == OperatorKind::Exclamation || op
                    == OperatorKind::Minus {
                    let operator = match op.to_unary() {
                        Some(o) => o,
                        None => {
                            return None;
                        },
                    };
                    self.source_tokens.consume();
                    let operand = match self.parse_binary_at(100) {
                        Some(e) => e,
                        None => {
                            return None;
                        },
                    };
                    let span = tok.span.combine(operand.get_span());
                    AstExpression::Unary { operator, operand: Box::new(operand), span }
                } else {
                    self.report_unknown(tok);
                    return None;
                }
            },
            TokenKind::Punctuation(PunctuationKind::OpenParen) => {
                self.source_tokens.consume();
                let inner = match self.parse_binary_at(0) {
                    Some(e) => e,
                    None => {
                        return None;
                    },
                };
                match self.expect_own(TokenKind::Punctuation(PunctuationKind::CloseParen)) {
                    Some(_) => {},
                    None => {
                        return None;
                    },
                }
                inner
            },
            _ => {
                self.report_unknown(tok);
                return None;
            },
        };
        loop
            invariant
                toks == old(self).toks(),
                pos0 == old(self).pos(),
                diags0 == old(self).diagnostics@,
                self.toks() == toks,
                pos0 < self.pos() <= toks.len(),
                parse_expr(toks, pos0, min_prec as int) == parse_tail(
                    toks,
                    lhs@,
                    self.pos(),
                    min_prec as int,
                ),
                self.diagnostics@ == diags0,
            ensures
                self.toks() == toks,
                pos0 < self.pos() <= toks.len(),
                parse_expr(toks, pos0, min_prec as int) == Some((lhs@, self.pos())),
                self.diagnostics@ == diags0,
            decreases toks.len() - self.pos(),
        {
            let next_token = match self.source_tokens.peek() {
                Some(t) => t,
                None => {
                    break;
                },
            };
            let op_kind = match next_token.kind {
                TokenKind::Operator(op) => op,
                _ => {
                    break;
                },
            };
            let prec = get_precedence(&op_kind);
            if prec < min_prec {
                break;
            }
            self.source_tokens.consume();
            let rhs = match self.parse_binary_at(prec + 1) {
                Some(e) => e,
                None => {
                    return None;
                },
            };
            let operator = match op_kind.to_binary() {
                Some(o) => o,
                None => {
                    return None;
                },
            };
            let span = lhs.get_span().combine(rhs.get_span());
            lhs = AstExpression::Binary { operator, left: Box::new(lhs), right: Box::new(rhs), span };
        }
        Some(lhs)
    }
}

pub trait ExpressionParser {
    spec fn token_seq(&self) -> Seq<Token>;

    spec fn next_position(&self) -> int;

    /// Parses a whole expression at the current position.
    fn parse_expression(&mut self) -> (r: ParseResult<AstExpression>)
        requires
            0 <= old(self).next_position() <= old(self).token_seq().len(),
        ensures
            final(self).token_seq() == old(self).token_seq(),
            0 <= final(self).next_position() <= final(self).token_seq().len(),
            match r {
                Some(e) => parse_expr(old(self).token_seq(), old(self).next_position(), 0) == Some(
                    (e@, final(self).next_position()),
                ),
                None => parse_expr(old(self).token_seq(), old(self).next_position(), 0) is None,
            },
    ;

    /// Parses an expression whose operators bind no looser than `min_prec`.
    fn parse_binary_expression(&mut self, min_prec: u8) -> (r: ParseResult<AstExpression>)
        requires
            0 <= old(self).next_position() <= old(self).token_seq().len(),
        ensures
            final(self).token_seq() == old(self).token_seq(),
            0 <= final(self).next_position() <= final(self).token_seq().len(),
            match r {
                Some(e) => parse_expr(
                    old(self).token_seq(),
                    old(self).next_position(),
                    min_prec as int,
                ) == Some((e@, final(self).next_position())),
                None => parse_expr(
                    old(self).token_seq(),
                    old(self).next_position(),
                    min_prec as int,
                ) is None,
            },
    ;
}

impl ExpressionParser for ParserRules {
    open spec fn token_seq(&self) -> Seq<Token> {
        self.toks()
    }

    open spec fn next_position(&self) -> int {
        self.pos()
    }

    fn parse_expression(&mut self) -> (r: ParseResult<AstExpression>) {
        self.parse_binary_at(0)
    }

    fn parse_binary_expression(&mut self, min_prec: u8) -> (r: ParseResult<AstExpression>) {
        self.parse_binary_at(min_prec)
    }
}

/// Parses `return <expression>;` at the current position.
pub fn parse_return(parser: &mut ParserRules, ctx: &mut ParserContext) -> (r: Option<AstStatement>)
    requires
        old(parser).pos() <= old(parser).toks().len(),
    ensures
        final(parser).toks() == old(parser).toks(),
        match r {
            Some(s) => parse_return_stmt(old(parser).toks(), old(parser).pos()) == Some(
                (s@, final(parser).pos()),
            ),
            None => parse_return_stmt(old(parser).toks(), old(parser).pos()) is None,
        },
{
    let start_span = match parser.source_tokens.peek() {
        Some(t) => t.get_span(),
        None => {
            return None;
        },
    };
    match parser.expect(ctx, TokenKind::Keyword(KeywordKind::Return)) {
        Some(_) => {},
        None => {
            return None;
        },
    }
    let expression = match parser.parse_expression() {
        Some(e) => e,
        None => {
            return None;
        },
    };
    match parser.expect(ctx, TokenKind::Punctuation(PunctuationKind::Semicolon)) {
        Some(_) => {},
        None => {
            return None;
        },
    }
    let end_span = match parser.source_tokens.peek() {
        Some(t) => t.get_span(),
        None => {
            return None;
        },
    };
    let span = start_span.combine(end_span);
    Some(AstStatement::Return { expression, span })
}

} // verus!

//! The untyped syntax tree and its mathematical view.
use vstd::prelude::*;

verus! {

/// A half-open range of source positions.
#[derive(Clone, Copy, Debug, PartialEq, Eq, Structural)]
pub struct Span {
    pub start: usize,
    pub end: usize,
}

impl Span {
    pub fn new(start: usize, end: usize) -> (r: Span)
        ensures
            r.start == start,
            r.end == end,
    {
        Span { start, end }
    }

    /// The smallest span that covers both `self` and `other`.
    pub fn combine(self, other: Span) -> (r: Span)
        ensures
            r.start == if self.start <= other.start { self.start } else { other.start },
            r.end == if self.end >= other.end { self.end } else { other.end },
    {
        let start = if self.start <= other.start { self.start } else { other.start };
        let end = if self.end >= other.end { self.end } else { other.end };
        Span { start, end }
    }
}

#[derive(Clone, Copy, Debug, PartialEq, Eq, Structural)]
pub enum UnaryOperator {
    Complement,
    Negate,
    Not,
}

#[derive(Clone, Copy, Debug, PartialEq, Eq, Structural)]
pub enum BinaryOperator {
    Add,
    Subtract,
    Multiply,
    Divide,
    Remainder,
    And,
    Or,
    Equal,
    NotEqual,
    LessThan,
    LessOrEqual,
    GreaterThan,
    GreaterOrEqual,
}

#[derive(Debug)]
pub enum AstExpression {
    Constant { constant: i32, span: Span },
    Var { identifier: String, span: Span },
    Unary { operator: UnaryOperator, operand: Box<AstExpression>, span: Span },
    Binary {
        operator: BinaryOperator,
        left: Box<AstExpression>,
        right: Box<AstExpression>,
        span: Span,
    },
    Assignment { left: Box<AstExpression>, right: Box<AstExpression>, span: Span },
    Conditional {
        condition: Box<AstExpression>,
        then_branch: Box<AstExpression>,
        else_branch: Box<AstExpression>,
        span: Span,
    },
}

#[derive(Debug)]
pub struct AstDeclaration {
    pub name: String,
    pub init: Option<AstExpression>,
    pub span: Span,
}

#[derive(Debug)]
pub enum AstForInit {
    InitDeclaration(AstDeclaration),
    InitExpression(Option<AstExpression>),
}

#[derive(Debug)]
pub enum AstStatement {
    Return { expression: AstExpression, span: Span },
    Expression { expression: AstExpression, span: Span },
    If {
        condition: AstExpression,
        then_branch: Box<AstStatement>,
        else_branch: Option<Box<AstStatement>>,
        span: Span,
    },
    Compound { block: AstBlock, span: Span },
    Break { label: String, span: Span },
    Continue { label: String, span: Span },
    While { condition: AstExpression, body: Box<AstStatement>, label: String, span: Span },
    DoWhile { condition: AstExpression, body: Box<AstStatement>, label: String, span: Span },
    For {
        for_init: AstForInit,
        condition: Option<AstExpression>,
        post: Option<AstExpression>,
        body: Box<AstStatement>,
        label: String,
        span: Span,
    },
    Null,
}

#[derive(Debug)]
pub enum AstBlockItem {
    Statement(AstStatement),
    Declaration(AstDeclaration),
}

#[derive(Debug)]
pub struct AstBlock {
    pub block_items: Vec<AstBlockItem>,
    pub span: Span,
}

#[derive(Debug)]
pub struct AstFunctionDefinition {
    pub name: String,
    pub body: AstBlock,
    pub span: Span,
}

#[derive(Debug)]
pub struct AstProgram {
    pub function_definition: AstFunctionDefinition,
}

// ---------------------------------------------------------------------------
// Mathematical view: the same shapes with identifiers as character sequences.
pub enum ExprV {
    Constant { constant: i32, span: Span },
    Var { identifier: Seq<char>, span: Span },
    Unary { operator: UnaryOperator, operand: Box<ExprV>, span: Span },
    Binary { operator: BinaryOperator, left: Box<ExprV>, right: Box<ExprV>, span: Span },
    Assignment { left: Box<ExprV>, right: Box<ExprV>, span: Span },
    Conditional {
        condition: Box<ExprV>,
        then_branch: Box<ExprV>,
        else_branch: Box<ExprV>,
        span: Span,
    },
}

pub struct DeclV {
    pub name: Seq<char>,
    pub init: Option<ExprV>,
    pub span: Span,
}

pub enum ForInitV {
    InitDeclaration(DeclV),
    InitExpression(Option<ExprV>),
}

pub enum StmtV {
    Return { expression: ExprV, span: Span },
    Expression { expression: ExprV, span: Span },
    If {
        condition: ExprV,
        then_branch: Box<StmtV>,
        else_branch: Option<Box<StmtV>>,
        span: Span,
    },
    Compound { items: Seq<ItemV>, span: Span },
    Break { label: Seq<char>, span: Span },
    Continue { label: Seq<char>, span: Span },
    While { condition: ExprV, body: Box<StmtV>, label: Seq<char>, span: Span },
    DoWhile { condition: ExprV, body: Box<StmtV>, label: Seq<char>, span: Span },
    For {
        for_init: ForInitV,
        condition: Option<ExprV>,
        post: Option<ExprV>,
        body: Box<StmtV>,
        label: Seq<char>,
        span: Span,
    },
    Null,
}

pub enum ItemV {
    Statement(StmtV),
    Declaration(DeclV),
}

pub open spec fn opt_expr_view(e: Option<AstExpression>) -> Option<ExprV> {
    match e {
        Some(x) => Some(x@),
        None => None,
    }
}

impl View for AstExpression {
    type V = ExprV;

    open spec fn view(&self) -> ExprV
        decreases self,
    {
        match self {
            AstExpression::Constant { constant, span } => ExprV::Constant {
                constant: *constant,
                span: *span,
            },
            AstExpression::Var { identifier, span } => ExprV::Var {
                identifier: identifier@,
                span: *span,
            },
            AstExpression::Unary { operator, operand, span } => ExprV::Unary {
                operator: *operator,
                operand: Box::new((**operand)@),
                span: *span,
            },
            AstExpression::Binary { operator, left, right, span } => ExprV::Binary {
                operator: *operator,
                left: Box::new((**left)@),
                right: Box::new((**right)@),
                span: *span,
            },
            AstExpression::Assignment { left, right, span } => ExprV::Assignment {
                left: Box::new((**left)@),
                right: Box::new((**right)@),
                span: *span,
            },
            AstExpression::Conditional { condition, then_branch, else_branch, span } =>
                ExprV::Conditional {
                condition: Box::new((**condition)@),
                then_branch: Box::new((**then_branch)@),
                else_branch: Box::new((**else_branch)@),
                span: *span,
            },
        }
    }
}

impl AstExpression {
    pub fn get_span(&self) -> (r: Span)
        ensures
            r == span_of(self@),
    {
        match self {
            AstExpression::Constant { span, .. } => *span,
            AstExpression::Var { span, .. } => *span,
            AstExpression::Unary { span, .. } => *span,
            AstExpression::Binary { span, .. } => *span,
            AstExpression::Assignment { span, .. } => *span,
            AstExpression::Conditional { span, .. } => *span,
        }
    }
}

pub open spec fn span_of(e: ExprV) -> Span {
    match e {
        ExprV::Constant { span, .. } => span,
        ExprV::Var { span, .. } => span,
        ExprV::Unary { span, .. } => span,
        ExprV::Binary { span, .. } => span,
        ExprV::Assignment { span, .. } => span,
        ExprV::Conditional { span, .. } => span,
    }
}

impl View for AstDeclaration {
    type V = DeclV;

    open spec fn view(&self) -> DeclV {
        DeclV { name: self.name@, init: opt_expr_view(self.init), span: self.span }
    }
}

impl View for AstForInit {
    type V = ForInitV;

    open spec fn view(&self) -> ForInitV {
        match self {
            AstForInit::InitDeclaration(d) => ForInitV::InitDeclaration(d@),
            AstForInit::InitExpression(e) => ForInitV::InitExpression(opt_expr_view(*e)),
        }
    }
}

pub open spec fn stmt_view(s: AstStatement) -> StmtV
    decreases s,
{
    match s {
        AstStatement::Return { expression, span } => StmtV::Return { expression: expression@, span },
        AstStatement::Expression { expression, span } => StmtV::Expression {
            expression: expression@,
            span,
        },
        AstStatement::If { condition, then_branch, else_branch, span } => StmtV::If {
            condition: condition@,
            then_branch: Box::new(stmt_view(*then_branch)),
            else_branch: match else_branch {
                Some(b) => Some(Box::new(stmt_view(*b))),
                None => None,
            },
            span,
        },
        AstStatement::Compound { block, span } => StmtV::Compound {
            items: items_view(block.block_items@),
            span,
        },
        AstStatement::Break { label, span } => StmtV::Break { label: label@, span },
        AstStatement::Continue { label, span } => StmtV::Continue { label: label@, span },
        AstStatement::While { condition, body, label, span } => StmtV::While {
            condition: condition@,
            body: Box::new(stmt_view(*body)),
            label: label@,
            span,
        },
        AstStatement::DoWhile { condition, body, label, span } => StmtV::DoWhile {
            condition: condition@,
            body: Box::new(stmt_view(*body)),
            label: label@,
            span,
        },
        AstStatement::For { for_init, condition, post, body, label, span } => StmtV::For {
            for_init: for_init@,
            condition: opt_expr_view(condition),
            post: opt_expr_view(post),
            body: Box::new(stmt_view(*body)),
            label: label@,
            span,
        },
        AstStatement::Null => StmtV::Null,
    }
}

pub open spec fn item_view(item: AstBlockItem) -> ItemV
    decreases item,
{
    match item {
        AstBlockItem::Statement(s) => ItemV::Statement(stmt_view(s)),
        AstBlockItem::Declaration(d) => ItemV::Declaration(d@),
    }
}

pub open spec fn items_view(items: Seq<AstBlockItem>) -> Seq<ItemV>
    decreases items,
{
    if items.len() == 0 {
        Seq::empty()
    } else {
        items_view(items.drop_last()).push(item_view(items.last()))
    }
}

impl View for AstStatement {
    type V = StmtV;

    open spec fn view(&self) -> StmtV {
        stmt_view(*self)
    }
}

impl View for AstBlockItem {
    type V = ItemV;

    open spec fn view(&self) -> ItemV {
        item_view(*self)
    }
}

impl View for AstBlock {
    type V = Seq<ItemV>;

    open spec fn view(&self) -> Seq<ItemV> {
        items_view(self.block_items@)
    }
}

} // verus!

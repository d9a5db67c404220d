//! The typed tree: the shape of the syntax tree with a type on every
//! declaration, block and expression.
use vstd::prelude::*;

use crate::ast::{AstExpression, AstStatement, Span};

verus! {

/// The language has one scalar type.
#[derive(Clone, Copy, Debug, PartialEq, Eq, Structural)]
pub enum AstType {
    Int,
}

#[derive(Debug)]
pub struct TypedExpression {
    pub expression: AstExpression,
    pub ty: AstType,
}

#[derive(Debug)]
pub struct TypedStatement {
    pub statement: AstStatement,
    pub ty: AstType,
}

#[derive(Debug)]
pub struct TypedProgram {
    functions: Vec<TypedFunctionDeclaration>,
}

#[derive(Debug)]
pub struct TypedFunctionDeclaration {
    identifier: String,
    params: Vec<String>,
    body: Option<TypedBlock>,
    ty: AstType,
    span: Span,
}

#[derive(Debug)]
pub struct TypedBlock {
    block_items: Vec<TypedBlockItem>,
    ty: AstType,
    span: Span,
}

#[derive(Debug)]
pub enum TypedBlockItem {
    Statement(TypedStatement),
    Declaration(TypedDeclaration),
}

#[derive(Debug)]
pub enum TypedDeclaration {
    FunDecl(TypedFunctionDeclaration),
    VarDecl(TypedVariableDeclaration),
}

#[derive(Debug)]
pub struct TypedVariableDeclaration {
    identifier: String,
    init: Option<TypedExpression>,
    ty: AstType,
    span: Span,
}

impl TypedProgram {
    pub fn new(functions: Vec<TypedFunctionDeclaration>) -> (r: Self)
        ensures
            r.functions() == functions,
    {
        TypedProgram { functions }
    }

    pub closed spec fn functions(&self) -> Vec<TypedFunctionDeclaration> {
        self.functions
    }

    pub fn get_functions(&self) -> (r: &Vec<TypedFunctionDeclaration>)
        ensures
            *r == self.functions(),
    {
        &self.functions
    }
}

impl TypedFunctionDeclaration {
    pub fn new(
        identifier: String,
        params: Vec<String>,
        body: Option<TypedBlock>,
        ty: AstType,
        span: Span,
    ) -> (r: Self)
        ensures
            r.identifier() == identifier,
            r.params() == params,
            r.body() == body,
            r.ty() == ty,
            r.span() == span,
    {
        TypedFunctionDeclaration { identifier, params, body, ty, span }
    }

    pub closed spec fn identifier(&self) -> String {
        self.identifier
    }

    pub closed spec fn params(&self) -> Vec<String> {
        self.params
    }

    pub closed spec fn body(&self) -> Option<TypedBlock> {
        self.body
    }

    pub closed spec fn ty(&self) -> AstType {
        self.ty
    }

    pub closed spec fn span(&self) -> Span {
        self.span
    }

    pub fn get_identifier(&self) -> (r: &String)
        ensures
            *r == self.identifier(),
    {
        &self.identifier
    }

    pub fn get_params(&self) -> (r: &Vec<String>)
        ensures
            *r == self.params(),
    {
        &self.params
    }

    pub fn get_body(&self) -> (r: &Option<TypedBlock>)
        ensures
            *r == self.body(),
    {
        &self.body
    }

    pub fn get_ty(&self) -> (r: AstType)
        ensures
            r == self.ty(),
    {
        self.ty
    }

    pub fn get_span(&self) -> (r: Span)
        ensures
            r == self.span(),
    {
        self.span
    }
}

impl TypedBlock {
    pub fn new(block_items: Vec<TypedBlockItem>, ty: AstType, span: Span) -> (r: Self)
        ensures
            r.block_items() == block_items,
            r.ty() == ty,
            r.span() == span,
    {
        TypedBlock { block_items, ty, span }
    }

    pub closed spec fn block_items(&self) -> Vec<TypedBlockItem> {
        self.block_items
    }

    pub closed spec fn ty(&self) -> AstType {
        self.ty
    }

    pub closed spec fn span(&self) -> Span {
        self.span
    }

    pub fn get_block_items(&self) -> (r: &Vec<TypedBlockItem>)
        ensures
            *r == self.block_items(),
    {
        &self.block_items
    }

    pub fn get_ty(&self) -> (r: AstType)
        ensures
            r == self.ty(),
    {
        self.ty
    }

    pub fn get_span(&self) -> (r: Span)
        ensures
            r == self.span(),
    {
        self.span
    }
}

impl TypedVariableDeclaration {
    pub fn new(identifier: String, init: Option<TypedExpression>, ty: AstType, span: Span) -> (r:
        Self)
        ensures
            r.identifier() == identifier,
            r.init() == init,
            r.ty() == ty,
            r.span() == span,
    {
        TypedVariableDeclaration { identifier, init, ty, span }
    }

    pub closed spec fn identifier(&self) -> String {
        self.identifier
    }

    pub closed spec fn init(&self) -> Option<TypedExpression> {
        self.init
    }

    pub closed spec fn ty(&self) -> AstType {
        self.ty
    }

    pub closed spec fn span(&self) -> Span {
        self.span
    }

    pub fn get_identifier(&self) -> (r: &String)
        ensures
            *r == self.identifier(),
    {
        &self.identifier
    }

    pub fn get_init(&self) -> (r: &Option<TypedExpression>)
        ensures
            *r == self.init(),
    {
        &self.init
    }

    pub fn get_ty(&self) -> (r: AstType)
        ensures
            r == self.ty(),
    {
        self.ty
    }

    pub fn get_span(&self) -> (r: Span)
        ensures
            r == self.span(),
    {
        self.span
    }
}

} // verus!

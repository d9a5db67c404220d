//! Scope resolution: every variable reference is renamed to the unique name of
//! the binding it denotes, and scoping and control-flow violations are reported
//! without stopping the traversal.
use vstd::prelude::*;

use crate::ast::{
    AstBlock, AstBlockItem, AstDeclaration, AstExpression, AstForInit, AstProgram, AstStatement,
    DeclV, ExprV, ForInitV, ItemV, Span, StmtV, opt_expr_view, span_of, items_view, item_view,
};
use crate::context::{SemanticContext, fresh_name};
use crate::diagnostics::{Diagnostic, DiagnosticKind, DiagV, KindV, error_of};

verus! {

/// What a scope records of one surface name.
#[derive(Debug)]
pub struct VariableInfo {
    pub name: String,
    pub unique_name: String,
    pub from_current_block: bool,
}

pub struct VarEntry {
    pub name: Seq<char>,
    pub unique: Seq<char>,
    pub current: bool,
}

impl View for VariableInfo {
    type V = VarEntry;

    open spec fn view(&self) -> VarEntry {
        VarEntry { name: self.name@, unique: self.unique_name@, current: self.from_current_block }
    }
}

/// A scope: bindings in order of declaration; a later binding of a name hides
/// an earlier one.
pub type VariableMap = Vec<VariableInfo>;

pub open spec fn scope_of(m: Seq<VariableInfo>) -> Seq<VarEntry> {
    m.map_values(|v: VariableInfo| v@)
}

/// The binding that `name` denotes in scope `m`: its latest one.
pub open spec fn lookup(m: Seq<VarEntry>, name: Seq<char>) -> Option<VarEntry>
    decreases m.len(),
{
    if m.len() == 0 {
        None
    } else if m.last().name == name {
        Some(m.last())
    } else {
        lookup(m.drop_last(), name)
    }
}

/// The scope a nested block starts from: every binding of the enclosing one,
/// none of them declared in the new block.
pub open spec fn inherit(m: Seq<VarEntry>) -> Seq<VarEntry> {
    m.map_values(|e: VarEntry| VarEntry { name: e.name, unique: e.unique, current: false })
}

/// `m` after declaring `name` with the counter at `n`.
pub open spec fn declare(m: Seq<VarEntry>, name: Seq<char>, n: nat) -> Seq<VarEntry> {
    m.push(VarEntry { name, unique: fresh_name(name, n), current: true })
}

/// Whether `name` is already declared in the block that `m` belongs to.
pub open spec fn declared_in_block(m: Seq<VarEntry>, name: Seq<char>) -> bool {
    match lookup(m, name) {
        Some(e) => e.current,
        None => false,
    }
}

pub open spec fn break_message() -> Seq<char> {
    "break used outside of the loop"@
}

pub open spec fn continue_message() -> Seq<char> {
    "continue used outside of the loop"@
}

pub open spec fn lvalue_message() -> Seq<char> {
    "invalid lvalue in assignment"@
}

/// `e` with every variable renamed to the unique name of its binding in `m`;
/// a name with no binding is left as it is.
pub open spec fn resolve_expr(e: ExprV, m: Seq<VarEntry>) -> ExprV
    decreases e,
{
    match e {
        ExprV::Constant { .. } => e,
        ExprV::Var { identifier, span } => match lookup(m, identifier) {
            Some(b) => ExprV::Var { identifier: b.unique, span },
            None => e,
        },
        ExprV::Unary { operator, operand, span } => ExprV::Unary {
            operator,
            operand: Box::new(resolve_expr(*operand, m)),
            span,
        },
        ExprV::Binary { operator, left, right, span } => ExprV::Binary {
            operator,
            left: Box::new(resolve_expr(*left, m)),
            right: Box::new(resolve_expr(*right, m)),
            span,
        },
        ExprV::Assignment { left, right, span } => ExprV::Assignment {
            left: Box::new(resolve_expr(*left, m)),
            right: Box::new(resolve_expr(*right, m)),
            span,
        },
        ExprV::Conditional { condition, then_branch, else_branch, span } => ExprV::Conditional {
            condition: Box::new(resolve_expr(*condition, m)),
            then_branch: Box::new(resolve_expr(*then_branch, m)),
            else_branch: Box::new(resolve_expr(*else_branch, m)),
            span,
        },
    }
}

/// The diagnostics that resolving `e` in `m` reports, in traversal order:
/// undeclared variables, and an assignment whose target is not a variable.
pub open spec fn expr_diags(e: ExprV, m: Seq<VarEntry>) -> Seq<DiagV>
    decreases e,
{
    match e {
        ExprV::Constant { .. } => Seq::empty(),
        ExprV::Var { identifier, span } => match lookup(m, identifier) {
            Some(_) => Seq::empty(),
            None => seq![
                error_of(span, KindV::UseOfUndeclaredVariable { name: identifier }),
            ],
        },
        ExprV::Unary { operand, .. } => expr_diags(*operand, m),
        ExprV::Binary { left, right, .. } => expr_diags(*left, m) + expr_diags(*right, m),
        ExprV::Assignment { left, right, .. } => expr_diags(*left, m) + expr_diags(*right, m)
            + if (*left) is Var {
            Seq::empty()
        } else {
            seq![error_of(span_of(*left), KindV::Custom(lvalue_message()))]
        },
        ExprV::Conditional { condition, then_branch, else_branch, .. } => expr_diags(
            *condition,
            m,
        ) + expr_diags(*then_branch, m) + expr_diags(*else_branch, m),
    }
}

pub open spec fn resolve_opt(e: Option<ExprV>, m: Seq<VarEntry>) -> Option<ExprV> {
    match e {
        Some(x) => Some(resolve_expr(x, m)),
        None => None,
    }
}

pub open spec fn opt_diags(e: Option<ExprV>, m: Seq<VarEntry>) -> Seq<DiagV> {
    match e {
        Some(x) => expr_diags(x, m),
        None => Seq::empty(),
    }
}

/// Resolving a declaration with the counter at `n`: the declaration renamed,
/// and the diagnostics it reports. Its initializer is resolved in the scope
/// that already holds the new binding.
pub open spec fn resolve_decl(d: DeclV, m: Seq<VarEntry>, n: nat) -> (DeclV, Seq<DiagV>) {
    let m2 = declare(m, d.name, n);
    (
        DeclV { name: fresh_name(d.name, n), init: resolve_opt(d.init, m2), span: d.span },
        (if declared_in_block(m, d.name) {
            seq![error_of(d.span, KindV::DuplicateVariableDeclaration { name: d.name })]
        } else {
            Seq::empty()
        }) + opt_diags(d.init, m2),
    )
}

/// The number of declarations in a statement, each of which mints one name.
pub open spec fn decls(s: StmtV) -> nat
    decreases s,
{
    match s {
        StmtV::If { then_branch, else_branch, .. } => decls(*then_branch) + match else_branch {
            Some(b) => decls(*b),
            None => 0,
        },
        StmtV::Compound { items, .. } => items_decls(items),
        StmtV::While { body, .. } => decls(*body),
        StmtV::DoWhile { body, .. } => decls(*body),
        StmtV::For { for_init, body, .. } => init_decls(for_init) + decls(*body),
        _ => 0,
    }
}

pub open spec fn init_decls(i: ForInitV) -> nat {
    match i {
        ForInitV::InitDeclaration(_) => 1,
        ForInitV::InitExpression(_) => 0,
    }
}

pub open spec fn items_decls(items: Seq<ItemV>) -> nat
    decreases items,
{
    if items.len() == 0 {
        0
    } else {
        items_decls(items.drop_last()) + match items.last() {
            ItemV::Statement(s) => decls(s),
            ItemV::Declaration(_) => 1,
        }
    }
}

/// How deeply loops nest in a statement.
pub open spec fn nesting(s: StmtV) -> nat
    decreases s,
{
    match s {
        StmtV::If { then_branch, else_branch, .. } => {
            let t = nesting(*then_branch);
            let e = match else_branch {
                Some(b) => nesting(*b),
                None => 0,
            };
            if t >= e { t } else { e }
        },
        StmtV::Compound { items, .. } => items_nesting(items),
        StmtV::While { body, .. } => 1 + nesting(*body),
        StmtV::DoWhile { body, .. } => 1 + nesting(*body),
        StmtV::For { body, .. } => 1 + nesting(*body),
        _ => 0,
    }
}

pub open spec fn items_nesting(items: Seq<ItemV>) -> nat
    decreases items,
{
    if items.len() == 0 {
        0
    } else {
        let p = items_nesting(items.drop_last());
        let l = match items.last() {
            ItemV::Statement(s) => nesting(s),
            ItemV::Declaration(_) => 0,
        };
        if p >= l { p } else { l }
    }
}

/// The scope after the header of a `for` loop whose own scope starts as `h`.
pub open spec fn init_scope(i: ForInitV, h: Seq<VarEntry>, n: nat) -> Seq<VarEntry> {
    match i {
        ForInitV::InitDeclaration(d) => declare(h, d.name, n),
        ForInitV::InitExpression(_) => h,
    }
}

pub open spec fn resolve_init(i: ForInitV, h: Seq<VarEntry>, n: nat) -> (ForInitV, Seq<DiagV>) {
    match i {
        ForInitV::InitDeclaration(d) => {
            let r = resolve_decl(d, h, n);
            (ForInitV::InitDeclaration(r.0), r.1)
        },
        ForInitV::InitExpression(e) => (
            ForInitV::InitExpression(resolve_opt(e, h)),
            opt_diags(e, h),
        ),
    }
}

/// Resolving statement `s` in scope `m`, with the counter at `n` and loops
/// nested `depth` deep: the statement renamed, and the diagnostics it reports.
pub open spec fn resolve_stmt(s: StmtV, m: Seq<VarEntry>, n: nat, depth: nat) -> (
    StmtV,
    Seq<DiagV>,
)
    decreases s,
{
    match s {
        StmtV::Return { expression, span } => (
            StmtV::Return { expression: resolve_expr(expression, m), span },
            expr_diags(expression, m),
        ),
        StmtV::Expression { expression, span } => (
            StmtV::Expression { expression: resolve_expr(expression, m), span },
            expr_diags(expression, m),
        ),
        StmtV::If { condition, then_branch, else_branch, span } => {
            let t = resolve_stmt(*then_branch, m, n, depth);
            let e = match else_branch {
                Some(b) => {
                    let r = resolve_stmt(*b, m, n + decls(*then_branch), depth);
                    (Some(Box::new(r.0)), r.1)
                },
                None => (None, Seq::empty()),
            };
            (
                StmtV::If {
                    condition: resolve_expr(condition, m),
                    then_branch: Box::new(t.0),
                    else_branch: e.0,
                    span,
                },
                expr_diags(condition, m) + t.1 + e.1,
            )
        },
        StmtV::Compound { items, span } => {
            let r = resolve_items(items, inherit(m), n, depth);
            (StmtV::Compound { items: r.0, span }, r.1)
        },
        StmtV::Break { label, span } => (
            s,
            if depth == 0 {
                seq![error_of(span, KindV::Custom(break_message()))]
            } else {
                Seq::empty()
            },
        ),
        StmtV::Continue { label, span } => (
            s,
            if depth == 0 {
                seq![error_of(span, KindV::Custom(continue_message()))]
            } else {
                Seq::empty()
            },
        ),
        StmtV::While { condition, body, label, span } => {
            let b = resolve_stmt(*body, m, n, depth + 1);
            (
                StmtV::While {
                    condition: resolve_expr(condition, m),
                    body: Box::new(b.0),
                    label,
                    span,
                },
                expr_diags(condition, m) + b.1,
            )
        },
        StmtV::DoWhile { condition, body, label, span } => {
            let b = resolve_stmt(*body, m, n, depth + 1);
            (
                StmtV::DoWhile {
                    condition: resolve_expr(condition, m),
                    body: Box::new(b.0),
                    label,
                    span,
                },
                b.1 + expr_diags(condition, m),
            )
        },
        StmtV::For { for_init, condition, post, body, label, span } => {
            let i = resolve_init(for_init, inherit(m), n);
            let h = init_scope(for_init, inherit(m), n);
            let b = resolve_stmt(*body, h, n + init_decls(for_init), depth + 1);
            (
                StmtV::For {
                    for_init: i.0,
                    condition: resolve_opt(condition, h),
                    post: resolve_opt(post, h),
                    body: Box::new(b.0),
                    label,
                    span,
                },
                i.1 + opt_diags(condition, h) + opt_diags(post, h) + b.1,
            )
        },
        StmtV::Null => (s, Seq::empty()),
    }
}

/// Resolving the items of one block in order, starting in scope `m`: the
/// items renamed, the diagnostics, and the scope after the last item.
pub open spec fn resolve_items(items: Seq<ItemV>, m: Seq<VarEntry>, n: nat, depth: nat) -> (
    Seq<ItemV>,
    Seq<DiagV>,
    Seq<VarEntry>,
)
    decreases items,
{
    if items.len() == 0 {
        (Seq::empty(), Seq::empty(), m)
    } else {
        let p = resolve_items(items.drop_last(), m, n, depth);
        let k = n + items_decls(items.drop_last());
        match items.last() {
            ItemV::Declaration(d) => {
                let r = resolve_decl(d, p.2, k);
                (p.0.push(ItemV::Declaration(r.0)), p.1 + r.1, declare(p.2, d.name, k))
            },
            ItemV::Statement(s) => {
                let r = resolve_stmt(s, p.2, k, depth);
                (p.0.push(ItemV::Statement(r.0)), p.1 + r.1, p.2)
            },
        }
    }
}

/// The index of the binding that `name` denotes in `m`, if any.
fn find_binding(m: &VariableMap, name: &String) -> (r: Option<usize>)
    ensures
        match r {
            Some(i) => i < m@.len() && lookup(scope_of(m@), name@) == Some(scope_of(m@)[i as int]),
            None => lookup(scope_of(m@), name@) is None,
        },
{
    let mut i = m.len();
    assert(scope_of(m@).subrange(0, i as int) =~= scope_of(m@));
    while i > 0
        invariant
            i <= m@.len(),
            lookup(scope_of(m@), name@) == lookup(scope_of(m@).subrange(0, i as int), name@),
        decreases i,
    {
        proof {
            let s = scope_of(m@).subrange(0, i as int);
            assert(s.drop_last() =~= scope_of(m@).subrange(0, i - 1));
        }
        if m[i - 1].name == *name {
            return Some(i - 1);
        }
        i = i - 1;
    }
    None
}

/// A copy of `map` for a nested scope: the same bindings, none of them marked
/// as declared in the new block.
fn copy_variable_map(map: &VariableMap) -> (r: VariableMap)
    ensures
        scope_of(r@) == inherit(scope_of(map@)),
{
    let mut r: VariableMap = Vec::new();
    let mut i: usize = 0;
    while i < map.len()
        invariant
            i <= map@.len(),
            scope_of(r@) =~= inherit(scope_of(map@)).subrange(0, i as int),
        decreases map@.len() - i,
    {
        let info = &map[i];
        let ghost r0 = r@;
        r.push(
            VariableInfo {
                name: info.name.clone(),
                unique_name: info.unique_name.clone(),
                from_current_block: false,
            },
        );
        i += 1;
        assert(r@ == r0.push(r@.last()));
        assert(scope_of(r@) =~= scope_of(r0).push(r@.last()@));
        assert(scope_of(r@) =~= inherit(scope_of(map@)).subrange(0, i as int));
    }
    assert(inherit(scope_of(map@)).subrange(0, i as int) =~= inherit(scope_of(map@)));
    r
}

fn resolve_expression(
    expr: AstExpression,
    ctx: &mut SemanticContext,
    variable_map: &VariableMap,
) -> (r: AstExpression)
    ensures
        r@ == resolve_expr(expr@, scope_of(variable_map@)),
        final(ctx).diags() == old(ctx).diags() + expr_diags(expr@, scope_of(variable_map@)),
        final(ctx).temp_gen == old(ctx).temp_gen,
        final(ctx).loop_depth == old(ctx).loop_depth,
    decreases expr,
{
    let ghost m = scope_of(variable_map@);
    let ghost d0 = ctx.diags();
    match expr {
        AstExpression::Var { identifier, span } => {
            match find_binding(variable_map, &identifier) {
                Some(i) => {
                    AstExpression::Var { identifier: variable_map[i].unique_name.clone(), span }
                },
                None => {
                    let name = identifier.clone();
                    ctx.report(
                        Diagnostic::error(span, DiagnosticKind::UseOfUndeclaredVariable { name }),
                    );
                    AstExpression::Var { identifier, span }
                },
            }
        },
        AstExpression::Assignment { left, right, span } => {
            let ghost l = (*left)@;
            let ghost rt = (*right)@;
            let resolved_left = resolve_expression(*left, ctx, variable_map);
            let resolved_right = resolve_expression(*right, ctx, variable_map);
            if let AstExpression::Var { .. } = resolved_left {
                assert(ctx.diags() =~= d0 + expr_diags(expr@, m));
            } else {
                let msg = String::from_str("invalid lvalue in assignment");
                ctx.report(
                    Diagnostic::error(resolved_left.get_span(), DiagnosticKind::new_custom(msg)),
                );
                assert(ctx.diags() =~= d0 + expr_diags(expr@, m));
            }
            AstExpression::Assignment {
                left: Box::new(resolved_left),
                right: Box::new(resolved_right),
                span,
            }
        },
        AstExpression::Unary { operator, operand, span } => {
            AstExpression::Unary {
                operator,
                operand: Box::new(resolve_expression(*operand, ctx, variable_map)),
                span,
            }
        },
        AstExpression::Binary { operator, left, right, span } => {
            let l = resolve_expression(*left, ctx, variable_map);
            let r = resolve_expression(*right, ctx, variable_map);
            assert(ctx.diags() =~= d0 + expr_diags(expr@, m));
            AstExpression::Binary { operator, left: Box::new(l), right: Box::new(r), span }
        },
        AstExpression::Conditional { condition, then_branch, else_branch, span } => {
            let c = resolve_expression(*condition, ctx, variable_map);
            let t = resolve_expression(*then_branch, ctx, variable_map);
            let e = resolve_expression(*else_branch, ctx, variable_map);
            assert(ctx.diags() =~= d0 + expr_diags(expr@, m));
            AstExpression::Conditional {
                condition: Box::new(c),
                then_branch: Box::new(t),
                else_branch: Box::new(e),
                span,
            }
        },
        AstExpression::Constant { constant, span } => {
            assert(ctx.diags() =~= d0 + expr_diags(expr@, m));
            AstExpression::Constant { constant, span }
        },
    }
}

fn resolve_optional_expression(
    expr: Option<AstExpression>,
    ctx: &mut SemanticContext,
    variable_map: &VariableMap,
) -> (r: Option<AstExpression>)
    ensures
        opt_expr_view(r) == resolve_opt(opt_expr_view(expr), scope_of(variable_map@)),
        final(ctx).diags() == old(ctx).diags() + opt_diags(
            opt_expr_view(expr),
            scope_of(variable_map@),
        ),
        final(ctx).temp_gen == old(ctx).temp_gen,
        final(ctx).loop_depth == old(ctx).loop_depth,
{
    match expr {
        Some(e) => Some(resolve_expression(e, ctx, variable_map)),
        None => {
            assert(ctx.diags() =~= old(ctx).diags() + Seq::empty());
            None
        },
    }
}

fn resolve_declaration(
    decl: AstDeclaration,
    ctx: &mut SemanticContext,
    variable_map: &mut VariableMap,
) -> (r: AstDeclaration)
    requires
        old(ctx).counter() < u64::MAX,
    ensures
        r@ == resolve_decl(decl@, scope_of(old(variable_map)@), old(ctx).counter()).0,
        final(ctx).diags() == old(ctx).diags() + resolve_decl(
            decl@,
            scope_of(old(variable_map)@),
            old(ctx).counter(),
        ).1,
        final(ctx).counter() == old(ctx).counter() + 1,
        final(ctx).loop_depth == old(ctx).loop_depth,
        scope_of(final(variable_map)@) == declare(
            scope_of(old(variable_map)@),
            decl@.name,
            old(ctx).counter(),
        ),
{
    let ghost m = scope_of(variable_map@);
    let ghost dv = decl@;
    let AstDeclaration { name, init, span } = decl;
    if let Some(i) = find_binding(variable_map, &name) {
        if variable_map[i].from_current_block {
            ctx.report(
                Diagnostic::error(
                    span,
                    DiagnosticKind::DuplicateVariableDeclaration { name: name.clone() },
                ),
            );
        }
    }
    let ghost d1 = ctx.diags();
    assert(d1 =~= old(ctx).diags() + (if declared_in_block(m, dv.name) {
        seq![error_of(dv.span, KindV::DuplicateVariableDeclaration { name: dv.name })]
    } else {
        Seq::empty()
    }));
    let unique_name = ctx.temp_gen.temp_from(name.clone());
    let ghost v0 = variable_map@;
    variable_map.push(
        VariableInfo { name, unique_name: unique_name.clone(), from_current_block: true },
    );
    assert(variable_map@ == v0.push(variable_map@.last()));
    assert(scope_of(variable_map@) =~= declare(m, dv.name, old(ctx).counter()));
    let new_init = resolve_optional_expression(init, ctx, variable_map);
    assert(ctx.diags() =~= old(ctx).diags() + resolve_decl(dv, m, old(ctx).counter()).1);
    AstDeclaration { name: unique_name, init: new_init, span }
}

fn resolve_for_init(
    init: AstForInit,
    ctx: &mut SemanticContext,
    variable_map: &mut VariableMap,
) -> (r: AstForInit)
    requires
        old(ctx).counter() + init_decls(init@) <= u64::MAX,
    ensures
        r@ == resolve_init(init@, scope_of(old(variable_map)@), old(ctx).counter()).0,
        final(ctx).diags() == old(ctx).diags() + resolve_init(
            init@,
            scope_of(old(variable_map)@),
            old(ctx).counter(),
        ).1,
        final(ctx).counter() == old(ctx).counter() + init_decls(init@),
        final(ctx).loop_depth == old(ctx).loop_depth,
        scope_of(final(variable_map)@) == init_scope(
            init@,
            scope_of(old(variable_map)@),
            old(ctx).counter(),
        ),
{
    match init {
        AstForInit::InitExpression(expr_opt) => {
            AstForInit::InitExpression(resolve_optional_expression(expr_opt, ctx, variable_map))
        },
        AstForInit::InitDeclaration(decl) => {
            AstForInit::InitDeclaration(resolve_declaration(decl, ctx, variable_map))
        },
    }
}

pub(crate) proof fn lemma_items_view(s: Seq<AstBlockItem>)
    ensures
        items_view(s).len() == s.len(),
        forall|k: int| 0 <= k < s.len() ==> #[trigger] items_view(s)[k] == item_view(s[k]),
    decreases s.len(),
{
    if s.len() > 0 {
        lemma_items_view(s.drop_last());
    }
}

proof fn lemma_items_prefix(v: Seq<ItemV>, j: int)
    requires
        0 <= j <= v.len(),
    ensures
        items_decls(v.subrange(0, j)) <= items_decls(v),
        items_nesting(v.subrange(0, j)) <= items_nesting(v),
    decreases v.len(),
{
    if j < v.len() {
        assert(v.drop_last().subrange(0, j) =~= v.subrange(0, j));
        lemma_items_prefix(v.drop_last(), j);
    } else {
        assert(v.subrange(0, j) =~= v);
    }
}

#[verifier::loop_isolation(false)]
fn resolve_block(block: AstBlock, ctx: &mut SemanticContext, parent_map: &VariableMap) -> (r:
    AstBlock)
    requires
        old(ctx).counter() + items_decls(block@) <= u64::MAX,
        old(ctx).loop_depth + items_nesting(block@) <= u64::MAX,
    ensures
        r@ == resolve_items(
            block@,
            inherit(scope_of(parent_map@)),
            old(ctx).counter(),
            old(ctx).loop_depth as nat,
        ).0,
        r.span == block.span,
        final(ctx).diags() == old(ctx).diags() + resolve_items(
            block@,
            inherit(scope_of(parent_map@)),
            old(ctx).counter(),
            old(ctx).loop_depth as nat,
        ).1,
        final(ctx).counter() == old(ctx).counter() + items_decls(block@),
        final(ctx).loop_depth == old(ctx).loop_depth,
    decreases block,
{
    let ghost b = block;
    let ghost v = block@;
    let ghost m0 = inherit(scope_of(parent_map@));
    let ghost n0 = ctx.counter();
    let ghost dep = ctx.loop_depth as nat;
    let ghost diags0 = ctx.diags();
    let mut local_map = copy_variable_map(parent_map);
    let AstBlock { block_items, span } = block;
    let ghost orig = block_items@;
    proof {
        lemma_items_view(orig);
        assert(v.subrange(0, 0) =~= Seq::<ItemV>::empty());
        assert(items_view(Seq::<AstBlockItem>::empty()) =~= Seq::<ItemV>::empty());
        assert(orig.subrange(0, orig.len() as int) =~= orig);
    }
    let mut items = block_items;
    let total: usize = items.len();
    let mut new_items: Vec<AstBlockItem> = Vec::new();
    let mut i: usize = 0;
    while items.len() > 0
        invariant
            i <= orig.len(),
            orig.len() == total,
            v == items_view(orig),
            v.len() == orig.len(),
            forall|k: int| 0 <= k < orig.len() ==> #[trigger] v[k] == item_view(orig[k]),
            items@ == orig.subrange(i as int, orig.len() as int),
            orig == b.block_items@,
            items_view(new_items@) == resolve_items(v.subrange(0, i as int), m0, n0, dep).0,
            ctx.diags() == diags0 + resolve_items(v.subrange(0, i as int), m0, n0, dep).1,
            scope_of(local_map@) == resolve_items(v.subrange(0, i as int), m0, n0, dep).2,
            ctx.counter() == n0 + items_decls(v.subrange(0, i as int)),
            ctx.loop_depth == dep,
            n0 + items_decls(v) <= u64::MAX,
            dep + items_nesting(v) <= u64::MAX,
        decreases items.len(),
    {
        assert(i < orig.len());
        let item = items.remove(0);
        let ghost p = v.subrange(0, i as int);
        let ghost q = v.subrange(0, i + 1);
        let ghost pr = resolve_items(p, m0, n0, dep);
        proof {
            assert(item == orig[i as int]);
            assert(q.drop_last() =~= p);
            assert(q.last() == item_view(item));
            lemma_items_prefix(v, i + 1);
        }
        let ghost ni = new_items@;
        match item {
            AstBlockItem::Declaration(decl) => {
                let d = resolve_declaration(decl, ctx, &mut local_map);
                new_items.push(AstBlockItem::Declaration(d));
            },
            AstBlockItem::Statement(stmt) => {
                proof {
                    assert(decreases_to!(b => b.block_items));
                    assert(decreases_to!(b.block_items => orig));
                    assert(decreases_to!(orig => orig[i as int]));
                    assert(decreases_to!(orig[i as int] => stmt));
                    assert(decreases_to!(b => stmt));
                }
                let st = resolve_statement(stmt, ctx, &local_map);
                new_items.push(AstBlockItem::Statement(st));
            },
        }
        proof {
            assert(new_items@.drop_last() =~= ni);
            assert(items_view(new_items@) == items_view(ni).push(item_view(new_items@.last())));
            assert(ctx.diags() =~= diags0 + resolve_items(q, m0, n0, dep).1);
        }
        i += 1;
        assert(items@ =~= orig.subrange(i as int, orig.len() as int));
    }
    proof {
        assert(v.subrange(0, i as int) =~= v);
    }
    AstBlock { block_items: new_items, span }
}

fn resolve_statement(
    stmt: AstStatement,
    ctx: &mut SemanticContext,
    variable_map: &VariableMap,
) -> (r: AstStatement)
    requires
        old(ctx).counter() + decls(stmt@) <= u64::MAX,
        old(ctx).loop_depth + nesting(stmt@) <= u64::MAX,
    ensures
        r@ == resolve_stmt(
            stmt@,
            scope_of(variable_map@),
            old(ctx).counter(),
            old(ctx).loop_depth as nat,
        ).0,
        final(ctx).diags() == old(ctx).diags() + resolve_stmt(
            stmt@,
            scope_of(variable_map@),
            old(ctx).counter(),
            old(ctx).loop_depth as nat,
        ).1,
        final(ctx).counter() == old(ctx).counter() + decls(stmt@),
        final(ctx).loop_depth == old(ctx).loop_depth,
    decreases stmt,
{
    let ghost m = scope_of(variable_map@);
    let ghost sv = stmt@;
    let ghost n = ctx.counter();
    let ghost dep = ctx.loop_depth as nat;
    let ghost d0 = ctx.diags();
    match stmt {
        AstStatement::Return { expression, span } => AstStatement::Return {
            expression: resolve_expression(expression, ctx, variable_map),
            span,
        },
        AstStatement::Expression { expression, span } => AstStatement::Expression {
            expression: resolve_expression(expression, ctx, variable_map),
            span,
        },
        AstStatement::If { condition, then_branch, else_branch, span } => {
            let c = resolve_expression(condition, ctx, variable_map);
            let t = resolve_statement(*then_branch, ctx, variable_map);
            let e = match else_branch {
                Some(b) => Some(Box::new(resolve_statement(*b, ctx, variable_map))),
                None => None,
            };
            assert(ctx.diags() =~= d0 + resolve_stmt(sv, m, n, dep).1);
            AstStatement::If { condition: c, then_branch: Box::new(t), else_branch: e, span }
        },
        AstStatement::Compound { block, span } => {
            let block = resolve_block(block, ctx, variable_map);
            AstStatement::Compound { block, span }
        },
        AstStatement::Break { label, span } => {
            if ctx.loop_depth == 0 {
                let msg = String::from_str("break used outside of the loop");
                ctx.report(Diagnostic::error(span, DiagnosticKind::new_custom(msg)));
            } else {
                assert(ctx.diags() =~= d0 + Seq::empty());
            }
            AstStatement::Break { label, span }
        },
        AstStatement::Continue { label, span } => {
            if ctx.loop_depth == 0 {
                let msg = String::from_str("continue used outside of the loop");
                ctx.report(Diagnostic::error(span, DiagnosticKind::new_custom(msg)));
            } else {
                assert(ctx.diags() =~= d0 + Seq::empty());
            }
            AstStatement::Continue { label, span }
        },
        AstStatement::While { condition, body, label, span } => {
            let new_condition = resolve_expression(condition, ctx, variable_map);
            ctx.loop_depth = ctx.loop_depth + 1;
            let new_body = resolve_statement(*body, ctx, variable_map);
            ctx.loop_depth = ctx.loop_depth - 1;
            assert(ctx.diags() =~= d0 + resolve_stmt(sv, m, n, dep).1);
            AstStatement::While { condition: new_condition, body: Box::new(new_body), label, span }
        },
        AstStatement::DoWhile { condition, body, label, span } => {
            ctx.loop_depth = ctx.loop_depth + 1;
            let new_body = resolve_statement(*body, ctx, variable_map);
            ctx.loop_depth = ctx.loop_depth - 1;
            let new_condition = resolve_expression(condition, ctx, variable_map);
            assert(ctx.diags() =~= d0 + resolve_stmt(sv, m, n, dep).1);
            AstStatement::DoWhile {
                condition: new_condition,
                body: Box::new(new_body),
                label,
                span,
            }
        },
        AstStatement::For { for_init, condition, post, body, label, span } => {
            let mut new_map = copy_variable_map(variable_map);
            let new_init = resolve_for_init(for_init, ctx, &mut new_map);
            let new_condition = resolve_optional_expression(condition, ctx, &new_map);
            let new_post = resolve_optional_expression(post, ctx, &new_map);
            ctx.loop_depth = ctx.loop_depth + 1;
            let new_body = resolve_statement(*body, ctx, &new_map);
            ctx.loop_depth = ctx.loop_depth - 1;
            assert(ctx.diags() =~= d0 + resolve_stmt(sv, m, n, dep).1);
            AstStatement::For {
                for_init: new_init,
                condition: new_condition,
                post: new_post,
                body: Box::new(new_body),
                label,
                span,
            }
        },
        AstStatement::Null => {
            assert(ctx.diags() =~= d0 + Seq::empty());
            AstStatement::Null
        },
    }
}

/// The scope resolution pass over a whole program.
pub struct VariableResolutionCheck;

impl VariableResolutionCheck {
    /// Resolves the body of the program's function in place, starting from an
    /// empty scope, and appends what it reports to `ctx`.
    pub fn analyze(ast: &mut AstProgram, ctx: &mut SemanticContext)
        requires
            old(ctx).counter() + items_decls(old(ast).function_definition.body@) <= u64::MAX,
            old(ctx).loop_depth + items_nesting(old(ast).function_definition.body@) <= u64::MAX,
        ensures
            final(ast).function_definition.body@ == resolve_items(
                old(ast).function_definition.body@,
                Seq::empty(),
                old(ctx).counter(),
                old(ctx).loop_depth as nat,
            ).0,
            final(ast).function_definition.body.span == old(ast).function_definition.body.span,
            final(ast).function_definition.name@ == old(ast).function_definition.name@,
            final(ast).function_definition.span == old(ast).function_definition.span,
            final(ctx).diags() == old(ctx).diags() + resolve_items(
                old(ast).function_definition.body@,
                Seq::empty(),
                old(ctx).counter(),
                old(ctx).loop_depth as nat,
            ).1,
            final(ctx).counter() == old(ctx).counter() + items_decls(
                old(ast).function_definition.body@,
            ),
            final(ctx).loop_depth == old(ctx).loop_depth,
    {
        let variable_map: VariableMap = Vec::new();
        let mut body = AstBlock { block_items: Vec::new(), span: ast.function_definition.body.span };
        std::mem::swap(&mut body, &mut ast.function_definition.body);
        assert(inherit(scope_of(variable_map@)) =~= Seq::empty());
        let resolved = resolve_block(body, ctx, &variable_map);
        ast.function_definition.body = resolved;
    }
}

} // verus!

//! Lowering of the resolved tree into three-address code. Operands are
//! evaluated left to right; `&&`, `||` and `?:` become branches over labels.
use vstd::prelude::*;

use crate::ast::{
    AstBlock, AstBlockItem, AstDeclaration, AstExpression, AstForInit, AstStatement,
    BinaryOperator, DeclV, ExprV, ForInitV, ItemV, StmtV, item_view, items_view, opt_expr_view,
};
use crate::context::fresh_name;
use crate::tac::{TacGenerator, TacInstrV, TacInstruction, TacVal, TacValV};

verus! {

/// The temporary minted with the counter at `n`.
pub open spec fn tmp(n: nat) -> TacValV {
    TacValV::Var(fresh_name("tmp"@, n))
}

pub open spec fn is_short_circuit(op: BinaryOperator) -> bool {
    op == BinaryOperator::And || op == BinaryOperator::Or
}

/// How many names lowering `e` mints.
pub open spec fn mints(e: ExprV) -> nat
    decreases e,
{
    match e {
        ExprV::Constant { .. } => 0,
        ExprV::Var { .. } => 0,
        ExprV::Unary { operand, .. } => 1 + mints(*operand),
        ExprV::Binary { operator, left, right, .. } => if is_short_circuit(operator) {
            3 + mints(*left) + mints(*right)
        } else {
            1 + mints(*left) + mints(*right)
        },
        ExprV::Assignment { left, right, .. } => mints(*left) + mints(*right),
        ExprV::Conditional { condition, then_branch, else_branch, .. } => 3 + mints(*condition)
            + mints(*then_branch) + mints(*else_branch),
    }
}

/// The instructions that compute `e` with the counter at `n`, and the operand
/// that holds its value.
pub open spec fn lower_expr(e: ExprV, n: nat) -> (Seq<TacInstrV>, TacValV)
    decreases e,
{
    match e {
        ExprV::Constant { constant, .. } => (Seq::empty(), TacValV::Constant(constant)),
        ExprV::Var { identifier, .. } => (Seq::empty(), TacValV::Var(identifier)),
        ExprV::Unary { operator, operand, .. } => {
            let a = lower_expr(*operand, n);
            let dst = tmp(n + mints(*operand));
            (a.0.push(TacInstrV::Unary { operator, src: a.1, dst }), dst)
        },
        ExprV::Binary { operator, left, right, .. } => if is_short_circuit(operator) {
            let and = operator == BinaryOperator::And;
            let short = fresh_name(if and { "and_false"@ } else { "or_true"@ }, n);
            let end = fresh_name(if and { "and_end"@ } else { "or_end"@ }, n + 1);
            let dst = tmp(n + 2);
            let a = lower_expr(*left, n + 3);
            let b = lower_expr(*right, n + 3 + mints(*left));
            let test = |v: TacValV| if and {
                TacInstrV::JumpIfZero { condition: v, target: short }
            } else {
                TacInstrV::JumpIfNotZero { condition: v, target: short }
            };
            let (full, cut) = if and { (1i32, 0i32) } else { (0i32, 1i32) };
            (
                a.0.push(test(a.1)) + b.0 + seq![
                    test(b.1),
                    TacInstrV::Copy { src: TacValV::Constant(full), dst },
                    TacInstrV::Jump { target: end },
                    TacInstrV::Label(short),
                    TacInstrV::Copy { src: TacValV::Constant(cut), dst },
                    TacInstrV::Label(end),
                ],
                dst,
            )
        } else {
            let a = lower_expr(*left, n);
            let b = lower_expr(*right, n + mints(*left));
            let dst = tmp(n + mints(*left) + mints(*right));
            ((a.0 + b.0).push(TacInstrV::Binary { operator, src1: a.1, src2: b.1, dst }), dst)
        },
        ExprV::Assignment { left, right, .. } => {
            let a = lower_expr(*left, n);
            let b = lower_expr(*right, n + mints(*left));
            ((a.0 + b.0).push(TacInstrV::Copy { src: b.1, dst: a.1 }), a.1)
        },
        ExprV::Conditional { condition, then_branch, else_branch, .. } => {
            let els = fresh_name("cond_else"@, n);
            let end = fresh_name("cond_end"@, n + 1);
            let dst = tmp(n + 2);
            let c = lower_expr(*condition, n + 3);
            let t = lower_expr(*then_branch, n + 3 + mints(*condition));
            let f = lower_expr(*else_branch, n + 3 + mints(*condition) + mints(*then_branch));
            (
                c.0.push(TacInstrV::JumpIfZero { condition: c.1, target: els }) + t.0 + seq![
                    TacInstrV::Copy { src: t.1, dst },
                    TacInstrV::Jump { target: end },
                    TacInstrV::Label(els),
                ] + f.0 + seq![TacInstrV::Copy { src: f.1, dst }, TacInstrV::Label(end)],
                dst,
            )
        },
    }
}

fn mint(gen: &mut TacGenerator, prefix: &str) -> (r: String)
    requires
        old(gen).counter() < u64::MAX,
    ensures
        r@ == fresh_name(prefix@, old(gen).counter()),
        final(gen).counter() == old(gen).counter() + 1,
        final(gen).emitted() == old(gen).emitted(),
{
    gen.temp_gen.temp_from(String::from_str(prefix))
}

/// Emits the instructions that compute `e` and returns the operand holding it.
pub fn lower_expression(gen: &mut TacGenerator, e: AstExpression) -> (r: TacVal)
    requires
        old(gen).counter() + mints(e@) <= u64::MAX,
    ensures
        final(gen).emitted() == old(gen).emitted() + lower_expr(e@, old(gen).counter()).0,
        r@ == lower_expr(e@, old(gen).counter()).1,
        final(gen).counter() == old(gen).counter() + mints(e@),
    decreases e, 1int,
{
    let ghost n = gen.counter();
    let ghost e0 = gen.emitted();
    let ghost ev = e@;
    match e {
        AstExpression::Constant { constant, .. } => {
            assert(gen.emitted() =~= e0 + lower_expr(ev, n).0);
            TacVal::Constant(constant)
        },
        AstExpression::Var { identifier, .. } => {
            assert(gen.emitted() =~= e0 + lower_expr(ev, n).0);
            TacVal::Var(identifier)
        },
        AstExpression::Unary { operator, operand, .. } => {
            let src = lower_expression(gen, *operand);
            let dst = mint(gen, "tmp");
            gen.emit(TacInstruction::Unary { operator, src, dst: TacVal::Var(dst.clone()) });
            assert(gen.emitted() =~= e0 + lower_expr(ev, n).0);
            TacVal::Var(dst)
        },
        AstExpression::Binary { operator, .. } => {
            if operator == BinaryOperator::And || operator == BinaryOperator::Or {
                lower_short_circuit(gen, e)
            } else {
                match e {
                    AstExpression::Binary { operator, left, right, .. } => {
                        let a = lower_expression(gen, *left);
                        let b = lower_expression(gen, *right);
                        let dst = mint(gen, "tmp");
                        gen.emit(
                            TacInstruction::Binary {
                                operator,
                                src1: a,
                                src2: b,
                                dst: TacVal::Var(dst.clone()),
                            },
                        );
                        assert(gen.emitted() =~= e0 + lower_expr(ev, n).0);
                        TacVal::Var(dst)
                    },
                    _ => TacVal::Constant(0),
                }
            }
        },
        AstExpression::Assignment { left, right, .. } => {
            let a = lower_expression(gen, *left);
            let b = lower_expression(gen, *right);
            let dst = copy_val(&a);
            gen.emit(TacInstruction::Copy { src: b, dst });
            assert(gen.emitted() =~= e0 + lower_expr(ev, n).0);
            a
        },
        AstExpression::Conditional { .. } => lower_conditional(gen, e),
    }
}

fn lower_short_circuit(gen: &mut TacGenerator, e: AstExpression) -> (r: TacVal)
    requires
        old(gen).counter() + mints(e@) <= u64::MAX,
        e matches AstExpression::Binary { operator, .. } && is_short_circuit(operator),
    ensures
        final(gen).emitted() == old(gen).emitted() + lower_expr(e@, old(gen).counter()).0,
        r@ == lower_expr(e@, old(gen).counter()).1,
        final(gen).counter() == old(gen).counter() + mints(e@),
    decreases e, 0int,
{
    let ghost n = gen.counter();
    let ghost e0 = gen.emitted();
    let ghost ev = e@;
    match e {
        AstExpression::Binary { operator, left, right, .. } => {
            let and = operator == BinaryOperator::And;
            let short = mint(gen, if and { "and_false" } else { "or_true" });
            let end = mint(gen, if and { "and_end" } else { "or_end" });
            let dst = mint(gen, "tmp");
            let a = lower_expression(gen, *left);
            if and {
                gen.emit(TacInstruction::JumpIfZero { condition: a, target: short.clone() });
            } else {
                gen.emit(TacInstruction::JumpIfNotZero { condition: a, target: short.clone() });
            }
            let b = lower_expression(gen, *right);
            if and {
                gen.emit(TacInstruction::JumpIfZero { condition: b, target: short.clone() });
            } else {
                gen.emit(TacInstruction::JumpIfNotZero { condition: b, target: short.clone() });
            }
            let (full, cut) = if and { (1i32, 0i32) } else { (0i32, 1i32) };
            gen.emit(TacInstruction::Copy { src: TacVal::Constant(full), dst: TacVal::Var(dst.clone()) });
            gen.emit(TacInstruction::Jump { target: end.clone() });
            gen.emit(TacInstruction::Label(short));
            gen.emit(TacInstruction::Copy { src: TacVal::Constant(cut), dst: TacVal::Var(dst.clone()) });
            gen.emit(TacInstruction::Label(end));
            assert(gen.emitted() =~= e0 + lower_expr(ev, n).0);
            TacVal::Var(dst)
        },
        _ => TacVal::Constant(0),
    }
}

fn lower_conditional(gen: &mut TacGenerator, e: AstExpression) -> (r: TacVal)
    requires
        old(gen).counter() + mints(e@) <= u64::MAX,
        e is Conditional,
    ensures
        final(gen).emitted() == old(gen).emitted() + lower_expr(e@, old(gen).counter()).0,
        r@ == lower_expr(e@, old(gen).counter()).1,
        final(gen).counter() == old(gen).counter() + mints(e@),
    decreases e, 0int,
{
    let ghost n = gen.counter();
    let ghost e0 = gen.emitted();
    let ghost ev = e@;
    match e {
        AstExpression::Conditional { condition, then_branch, else_branch, .. } => {
            let els = mint(gen, "cond_else");
            let end = mint(gen, "cond_end");
            let dst = mint(gen, "tmp");
            let c = lower_expression(gen, *condition);
            gen.emit(TacInstruction::JumpIfZero { condition: c, target: els.clone() });
            let t = lower_expression(gen, *then_branch);
            gen.emit(TacInstruction::Copy { src: t, dst: TacVal::Var(dst.clone()) });
            gen.emit(TacInstruction::Jump { target: end.clone() });
            gen.emit(TacInstruction::Label(els));
            let f = lower_expression(gen, *else_branch);
            gen.emit(TacInstruction::Copy { src: f, dst: TacVal::Var(dst.clone()) });
            gen.emit(TacInstruction::Label(end));
            assert(gen.emitted() =~= e0 + lower_expr(ev, n).0);
            TacVal::Var(dst)
        },
        _ => TacVal::Constant(0),
    }
}

fn copy_val(v: &TacVal) -> (r: TacVal)
    ensures
        r@ == v@,
{
    match v {
        TacVal::Constant(c) => TacVal::Constant(*c),
        TacVal::Var(s) => TacVal::Var(s.clone()),
    }
}

pub open spec fn break_label(label: Seq<char>) -> Seq<char> {
    "break_"@ + label
}

pub open spec fn continue_label(label: Seq<char>) -> Seq<char> {
    "continue_"@ + label
}

pub open spec fn start_label(label: Seq<char>) -> Seq<char> {
    "start_"@ + label
}

pub open spec fn opt_mints(e: Option<ExprV>) -> nat {
    match e {
        Some(x) => mints(x),
        None => 0,
    }
}

/// The instructions of an optional expression whose value is not used.
pub open spec fn lower_opt(e: Option<ExprV>, n: nat) -> Seq<TacInstrV> {
    match e {
        Some(x) => lower_expr(x, n).0,
        None => Seq::empty(),
    }
}

/// A declaration stores its initializer, if any, into the declared name; an
/// uninitialized variable gets no instruction.
pub open spec fn lower_decl(d: DeclV, n: nat) -> Seq<TacInstrV> {
    match d.init {
        Some(e) => {
            let a = lower_expr(e, n);
            a.0.push(TacInstrV::Copy { src: a.1, dst: TacValV::Var(d.name) })
        },
        None => Seq::empty(),
    }
}

/// The test at the head of a `for` loop: leave the loop when the condition is
/// zero; no test where the condition is absent.
pub open spec fn loop_test(c: Option<ExprV>, n: nat, exit: Seq<char>) -> Seq<TacInstrV> {
    match c {
        Some(x) => {
            let a = lower_expr(x, n);
            a.0.push(TacInstrV::JumpIfZero { condition: a.1, target: exit })
        },
        None => Seq::empty(),
    }
}

pub open spec fn init_mints(i: ForInitV) -> nat {
    match i {
        ForInitV::InitDeclaration(d) => opt_mints(d.init),
        ForInitV::InitExpression(e) => opt_mints(e),
    }
}

pub open spec fn lower_init(i: ForInitV, n: nat) -> Seq<TacInstrV> {
    match i {
        ForInitV::InitDeclaration(d) => lower_decl(d, n),
        ForInitV::InitExpression(e) => lower_opt(e, n),
    }
}

/// How many names lowering `s` mints.
pub open spec fn stmt_mints(s: StmtV) -> nat
    decreases s,
{
    match s {
        StmtV::Return { expression, .. } => mints(expression),
        StmtV::Expression { expression, .. } => mints(expression),
        StmtV::If { condition, then_branch, else_branch, .. } => 2 + mints(condition) + stmt_mints(
            *then_branch,
        ) + match else_branch {
            Some(b) => stmt_mints(*b),
            None => 0,
        },
        StmtV::Compound { items, .. } => items_mints(items),
        StmtV::While { condition, body, .. } => mints(condition) + stmt_mints(*body),
        StmtV::DoWhile { condition, body, .. } => stmt_mints(*body) + mints(condition),
        StmtV::For { for_init, condition, post, body, .. } => init_mints(for_init) + opt_mints(
            condition,
        ) + stmt_mints(*body) + opt_mints(post),
        _ => 0,
    }
}

pub open spec fn items_mints(items: Seq<ItemV>) -> nat
    decreases items,
{
    if items.len() == 0 {
        0
    } else {
        items_mints(items.drop_last()) + match items.last() {
            ItemV::Statement(s) => stmt_mints(s),
            ItemV::Declaration(d) => opt_mints(d.init),
        }
    }
}

/// The instructions of statement `s` with the counter at `n`. Loops jump to
/// labels derived from their own label; `break` and `continue` jump to the
/// labels of the loop whose label they carry.
pub open spec fn lower_stmt(s: StmtV, n: nat) -> Seq<TacInstrV>
    decreases s,
{
    match s {
        StmtV::Return { expression, .. } => {
            let a = lower_expr(expression, n);
            a.0.push(TacInstrV::Return { val: a.1 })
        },
        StmtV::Expression { expression, .. } => lower_expr(expression, n).0,
        StmtV::If { condition, then_branch, else_branch, .. } => {
            let els = fresh_name("if_else"@, n);
            let end = fresh_name("if_end"@, n + 1);
            let c = lower_expr(condition, n + 2);
            let nt = n + 2 + mints(condition);
            let t = lower_stmt(*then_branch, nt);
            match else_branch {
                Some(b) => c.0.push(TacInstrV::JumpIfZero { condition: c.1, target: els }) + t
                    + seq![TacInstrV::Jump { target: end }, TacInstrV::Label(els)] + lower_stmt(
                    *b,
                    nt + stmt_mints(*then_branch),
                ) + seq![TacInstrV::Label(end)],
                None => c.0.push(TacInstrV::JumpIfZero { condition: c.1, target: end }) + t
                    + seq![TacInstrV::Label(end)],
            }
        },
        StmtV::Compound { items, .. } => lower_items(items, n),
        StmtV::Break { label, .. } => seq![TacInstrV::Jump { target: break_label(label) }],
        StmtV::Continue { label, .. } => seq![TacInstrV::Jump { target: continue_label(label) }],
        StmtV::While { condition, body, label, .. } => {
            let c = lower_expr(condition, n);
            seq![TacInstrV::Label(continue_label(label))] + c.0.push(
                TacInstrV::JumpIfZero { condition: c.1, target: break_label(label) },
            ) + lower_stmt(*body, n + mints(condition)) + seq![
                TacInstrV::Jump { target: continue_label(label) },
                TacInstrV::Label(break_label(label)),
            ]
        },
        StmtV::DoWhile { condition, body, label, .. } => {
            let c = lower_expr(condition, n + stmt_mints(*body));
            seq![TacInstrV::Label(start_label(label))] + lower_stmt(*body, n) + seq![
                TacInstrV::Label(continue_label(label)),
            ] + c.0.push(TacInstrV::JumpIfNotZero { condition: c.1, target: start_label(label) })
                + seq![TacInstrV::Label(break_label(label))]
        },
        StmtV::For { for_init, condition, post, body, label, .. } => {
            let nc = n + init_mints(for_init);
            let test = loop_test(condition, nc, break_label(label));
            let nb = nc + opt_mints(condition);
            lower_init(for_init, n) + seq![TacInstrV::Label(start_label(label))] + test
                + lower_stmt(*body, nb) + seq![TacInstrV::Label(continue_label(label))]
                + lower_opt(post, nb + stmt_mints(*body)) + seq![
                TacInstrV::Jump { target: start_label(label) },
                TacInstrV::Label(break_label(label)),
            ]
        },
        StmtV::Null => Seq::empty(),
    }
}

/// The instructions of the items of a block, in order.
pub open spec fn lower_items(items: Seq<ItemV>, n: nat) -> Seq<TacInstrV>
    decreases items,
{
    if items.len() == 0 {
        Seq::empty()
    } else {
        let k = n + items_mints(items.drop_last());
        lower_items(items.drop_last(), n) + match items.last() {
            ItemV::Statement(s) => lower_stmt(s, k),
            ItemV::Declaration(d) => lower_decl(d, k),
        }
    }
}

/// The instructions of a function body: its items, then a return of 0 for
/// control that reaches the end.
pub open spec fn lower_body(items: Seq<ItemV>, n: nat) -> Seq<TacInstrV> {
    lower_items(items, n).push(TacInstrV::Return { val: TacValV::Constant(0) })
}

/// Lowering a function body always yields instructions, and the last one is
/// a return, so control never runs off the end of the list.
pub proof fn lemma_lowered_body_ends_in_return(items: Seq<ItemV>, n: nat)
    ensures
        lower_body(items, n).len() > 0,
        lower_body(items, n).last() is Return,
{
}

fn derived_label(prefix: &str, label: &String) -> (r: String)
    ensures
        r@ == prefix@ + label@,
{
    let mut r = String::from_str(prefix);
    r.append(label.as_str());
    r
}

fn lower_optional(gen: &mut TacGenerator, e: Option<AstExpression>)
    requires
        old(gen).counter() + opt_mints(opt_expr_view(e)) <= u64::MAX,
    ensures
        final(gen).emitted() == old(gen).emitted() + lower_opt(
            opt_expr_view(e),
            old(gen).counter(),
        ),
        final(gen).counter() == old(gen).counter() + opt_mints(opt_expr_view(e)),
{
    match e {
        Some(x) => {
            lower_expression(gen, x);
        },
        None => {
            assert(gen.emitted() =~= old(gen).emitted() + Seq::empty());
        },
    }
}

/// Emits the instructions of a declaration.
pub fn lower_declaration(gen: &mut TacGenerator, d: AstDeclaration)
    requires
        old(gen).counter() + opt_mints(d@.init) <= u64::MAX,
    ensures
        final(gen).emitted() == old(gen).emitted() + lower_decl(d@, old(gen).counter()),
        final(gen).counter() == old(gen).counter() + opt_mints(d@.init),
{
    let AstDeclaration { name, init, .. } = d;
    match init {
        Some(e) => {
            let v = lower_expression(gen, e);
            gen.emit(TacInstruction::Copy { src: v, dst: TacVal::Var(name) });
            assert(gen.emitted() =~= old(gen).emitted() + lower_decl(d@, old(gen).counter()));
        },
        None => {
            assert(gen.emitted() =~= old(gen).emitted() + Seq::empty());
        },
    }
}

#[verifier::rlimit(40)]
fn lower_if(gen: &mut TacGenerator, s: AstStatement)
    requires
        old(gen).counter() + stmt_mints(s@) <= u64::MAX,
        s is If,
    ensures
        final(gen).emitted() == old(gen).emitted() + lower_stmt(s@, old(gen).counter()),
        final(gen).counter() == old(gen).counter() + stmt_mints(s@),
    decreases s, 0int,
{
    let ghost n = gen.counter();
    let ghost e0 = gen.emitted();
    let ghost sv = s@;
    match s {
        AstStatement::If { condition, then_branch, else_branch, .. } => {
            let ghost cv = condition@;
            let ghost tv = (*then_branch)@;
            let els = mint(gen, "if_else");
            let end = mint(gen, "if_end");
            let ghost c = lower_expr(cv, n + 2);
            let ghost nt = n + 2 + mints(cv);
            let cval = lower_expression(gen, condition);
            assert(gen.emitted() == e0 + c.0);
            match else_branch {
                Some(b) => {
                    let ghost bv = (*b)@;
                    assert(sv->If_else_branch == Some(Box::new(bv)));
                    gen.emit(TacInstruction::JumpIfZero { condition: cval, target: els.clone() });
                    let ghost s1 = c.0.push(TacInstrV::JumpIfZero { condition: c.1, target: els@ });
                    assert(gen.emitted() =~= e0 + s1);
                    lower_statement(gen, *then_branch);
                    let ghost s2 = s1 + lower_stmt(tv, nt);
                    assert(gen.emitted() =~= e0 + s2);
                    gen.emit(TacInstruction::Jump { target: end.clone() });
                    gen.emit(TacInstruction::Label(els));
                    let ghost s3 = s2 + seq![TacInstrV::Jump { target: end@ }, TacInstrV::Label(fresh_name("if_else"@, n))];
                    assert(gen.emitted() =~= e0 + s3);
                    lower_statement(gen, *b);
                    let ghost s4 = s3 + lower_stmt(bv, nt + stmt_mints(tv));
                    assert(gen.emitted() =~= e0 + s4);
                    gen.emit(TacInstruction::Label(end));
                    assert(lower_stmt(sv, n) == s4 + seq![TacInstrV::Label(fresh_name("if_end"@, n + 1))]);
                    assert(gen.emitted() =~= e0 + lower_stmt(sv, n));
                },
                None => {
                    gen.emit(TacInstruction::JumpIfZero { condition: cval, target: end.clone() });
                    let ghost s1 = c.0.push(TacInstrV::JumpIfZero { condition: c.1, target: end@ });
                    assert(gen.emitted() =~= e0 + s1);
                    lower_statement(gen, *then_branch);
                    let ghost s2 = s1 + lower_stmt(tv, nt);
                    assert(gen.emitted() =~= e0 + s2);
                    gen.emit(TacInstruction::Label(end));
                    assert(lower_stmt(sv, n) == s2 + seq![TacInstrV::Label(fresh_name("if_end"@, n + 1))]);
                    assert(gen.emitted() =~= e0 + lower_stmt(sv, n));
                },
            }
        },
        _ => {},
    }
}

#[verifier::rlimit(40)]
fn lower_while(gen: &mut TacGenerator, s: AstStatement)
    requires
        old(gen).counter() + stmt_mints(s@) <= u64::MAX,
        s is While,
    ensures
        final(gen).emitted() == old(gen).emitted() + lower_stmt(s@, old(gen).counter()),
        final(gen).counter() == old(gen).counter() + stmt_mints(s@),
    decreases s, 0int,
{
    let ghost n = gen.counter();
    let ghost e0 = gen.emitted();
    let ghost sv = s@;
    match s {
        AstStatement::While { condition, body, label, .. } => {
            let ghost cv = condition@;
            let ghost bv = (*body)@;
            let ghost l = label@;
            let cont = derived_label("continue_", &label);
            let brk = derived_label("break_", &label);
            gen.emit(TacInstruction::Label(cont.clone()));
            let ghost s0 = seq![TacInstrV::Label(continue_label(l))];
            assert(gen.emitted() =~= e0 + s0);
            let c = lower_expression(gen, condition);
            gen.emit(TacInstruction::JumpIfZero { condition: c, target: brk.clone() });
            let ghost ce = lower_expr(cv, n);
            let ghost s1 = s0 + ce.0.push(TacInstrV::JumpIfZero { condition: ce.1, target: break_label(l) });
            assert(gen.emitted() =~= e0 + s1);
            lower_statement(gen, *body);
            let ghost s2 = s1 + lower_stmt(bv, n + mints(cv));
            assert(gen.emitted() =~= e0 + s2);
            gen.emit(TacInstruction::Jump { target: cont });
            gen.emit(TacInstruction::Label(brk));
            assert(lower_stmt(sv, n) == s2 + seq![
                TacInstrV::Jump { target: continue_label(l) },
                TacInstrV::Label(break_label(l)),
            ]);
            assert(gen.emitted() =~= e0 + lower_stmt(sv, n));
        },
        _ => {},
    }
}

#[verifier::rlimit(40)]
fn lower_do_while(gen: &mut TacGenerator, s: AstStatement)
    requires
        old(gen).counter() + stmt_mints(s@) <= u64::MAX,
        s is DoWhile,
    ensures
        final(gen).emitted() == old(gen).emitted() + lower_stmt(s@, old(gen).counter()),
        final(gen).counter() == old(gen).counter() + stmt_mints(s@),
    decreases s, 0int,
{
    let ghost n = gen.counter();
    let ghost e0 = gen.emitted();
    let ghost sv = s@;
    match s {
        AstStatement::DoWhile { condition, body, label, .. } => {
            let ghost cv = condition@;
            let ghost bv = (*body)@;
            let ghost l = label@;
            let start = derived_label("start_", &label);
            let cont = derived_label("continue_", &label);
            let brk = derived_label("break_", &label);
            gen.emit(TacInstruction::Label(start.clone()));
            let ghost s0 = seq![TacInstrV::Label(start_label(l))];
            assert(gen.emitted() =~= e0 + s0);
            lower_statement(gen, *body);
            let ghost s1 = s0 + lower_stmt(bv, n);
            assert(gen.emitted() =~= e0 + s1);
            gen.emit(TacInstruction::Label(cont));
            let ghost s2 = s1 + seq![TacInstrV::Label(continue_label(l))];
            assert(gen.emitted() =~= e0 + s2);
            let c = lower_expression(gen, condition);
            gen.emit(TacInstruction::JumpIfNotZero { condition: c, target: start });
            let ghost ce = lower_expr(cv, n + stmt_mints(bv));
            let ghost s3 = s2 + ce.0.push(TacInstrV::JumpIfNotZero { condition: ce.1, target: start_label(l) });
            assert(gen.emitted() =~= e0 + s3);
            gen.emit(TacInstruction::Label(brk));
            assert(lower_stmt(sv, n) == s3 + seq![TacInstrV::Label(break_label(l))]);
            assert(gen.emitted() =~= e0 + lower_stmt(sv, n));
        },
        _ => {},
    }
}

fn lower_for_init(gen: &mut TacGenerator, init: AstForInit)
    requires
        old(gen).counter() + init_mints(init@) <= u64::MAX,
    ensures
        final(gen).emitted() == old(gen).emitted() + lower_init(init@, old(gen).counter()),
        final(gen).counter() == old(gen).counter() + init_mints(init@),
{
    match init {
        AstForInit::InitDeclaration(d) => lower_declaration(gen, d),
        AstForInit::InitExpression(e) => lower_optional(gen, e),
    }
}

fn lower_loop_test(gen: &mut TacGenerator, condition: Option<AstExpression>, exit: &String)
    requires
        old(gen).counter() + opt_mints(opt_expr_view(condition)) <= u64::MAX,
    ensures
        final(gen).emitted() == old(gen).emitted() + loop_test(
            opt_expr_view(condition),
            old(gen).counter(),
            exit@,
        ),
        final(gen).counter() == old(gen).counter() + opt_mints(opt_expr_view(condition)),
{
    match condition {
        Some(c) => {
            let v = lower_expression(gen, c);
            gen.emit(TacInstruction::JumpIfZero { condition: v, target: exit.clone() });
            assert(gen.emitted() =~= old(gen).emitted() + loop_test(
                opt_expr_view(condition),
                old(gen).counter(),
                exit@,
            ));
        },
        None => {
            assert(gen.emitted() =~= old(gen).emitted() + Seq::empty());
        },
    }
}

#[verifier::rlimit(60)]
fn lower_for(gen: &mut TacGenerator, s: AstStatement)
    requires
        old(gen).counter() + stmt_mints(s@) <= u64::MAX,
        s is For,
    ensures
        final(gen).emitted() == old(gen).emitted() + lower_stmt(s@, old(gen).counter()),
        final(gen).counter() == old(gen).counter() + stmt_mints(s@),
    decreases s, 0int,
{
    let ghost n = gen.counter();
    let ghost e0 = gen.emitted();
    let ghost sv = s@;
    match s {
        AstStatement::For { for_init, condition, post, body, label, .. } => {
            let ghost iv = for_init@;
            let ghost cv = opt_expr_view(condition);
            let ghost pv = opt_expr_view(post);
            let ghost bv = (*body)@;
            let ghost l = label@;
            let start = derived_label("start_", &label);
            let cont = derived_label("continue_", &label);
            let brk = derived_label("break_", &label);
            lower_for_init(gen, for_init);
            gen.emit(TacInstruction::Label(start.clone()));
            let ghost s1 = lower_init(iv, n) + seq![TacInstrV::Label(start_label(l))];
            assert(gen.emitted() =~= e0 + s1);
            let ghost nc = n + init_mints(iv);
            lower_loop_test(gen, condition, &brk);
            let ghost s2 = s1 + loop_test(cv, nc, break_label(l));
            assert(gen.emitted() =~= e0 + s2);
            let ghost nb = nc + opt_mints(cv);
            lower_statement(gen, *body);
            gen.emit(TacInstruction::Label(cont));
            let ghost s3 = s2 + lower_stmt(bv, nb) + seq![TacInstrV::Label(continue_label(l))];
            assert(gen.emitted() =~= e0 + s3);
            lower_optional(gen, post);
            let ghost s4 = s3 + lower_opt(pv, nb + stmt_mints(bv));
            assert(gen.emitted() =~= e0 + s4);
            gen.emit(TacInstruction::Jump { target: start });
            gen.emit(TacInstruction::Label(brk));
            assert(lower_stmt(sv, n) == s4 + seq![
                TacInstrV::Jump { target: start_label(l) },
                TacInstrV::Label(break_label(l)),
            ]);
            assert(gen.emitted() =~= e0 + lower_stmt(sv, n));
        },
        _ => {},
    }
}

/// Emits the instructions of a statement.
pub fn lower_statement(gen: &mut TacGenerator, s: AstStatement)
    requires
        old(gen).counter() + stmt_mints(s@) <= u64::MAX,
    ensures
        final(gen).emitted() == old(gen).emitted() + lower_stmt(s@, old(gen).counter()),
        final(gen).counter() == old(gen).counter() + stmt_mints(s@),
    decreases s, 1int,
{
    let ghost n = gen.counter();
    let ghost e0 = gen.emitted();
    let ghost sv = s@;
    match s {
        AstStatement::Return { expression, .. } => {
            let v = lower_expression(gen, expression);
            gen.emit(TacInstruction::Return { val: v });
        },
        AstStatement::Expression { expression, .. } => {
            lower_expression(gen, expression);
        },
        AstStatement::If { .. } => lower_if(gen, s),
        AstStatement::Compound { block, .. } => lower_block(gen, block),
        AstStatement::Break { label, .. } => {
            gen.emit(TacInstruction::Jump { target: derived_label("break_", &label) });
            assert(gen.emitted() =~= e0 + lower_stmt(sv, n));
        },
        AstStatement::Continue { label, .. } => {
            gen.emit(TacInstruction::Jump { target: derived_label("continue_", &label) });
            assert(gen.emitted() =~= e0 + lower_stmt(sv, n));
        },
        AstStatement::While { .. } => lower_while(gen, s),
        AstStatement::DoWhile { .. } => lower_do_while(gen, s),
        AstStatement::For { .. } => lower_for(gen, s),
        AstStatement::Null => {
            assert(gen.emitted() =~= e0 + lower_stmt(sv, n));
        },
    }
}

proof fn lemma_items_mints_prefix(v: Seq<ItemV>, j: int)
    requires
        0 <= j <= v.len(),
    ensures
        items_mints(v.subrange(0, j)) <= items_mints(v),
    decreases v.len(),
{
    if j < v.len() {
        assert(v.drop_last().subrange(0, j) =~= v.subrange(0, j));
        lemma_items_mints_prefix(v.drop_last(), j);
    } else {
        assert(v.subrange(0, j) =~= v);
    }
}

/// Emits the instructions of the items of a block, in order.
#[verifier::loop_isolation(false)]
pub fn lower_block(gen: &mut TacGenerator, block: AstBlock)
    requires
        old(gen).counter() + items_mints(block@) <= u64::MAX,
    ensures
        final(gen).emitted() == old(gen).emitted() + lower_items(block@, old(gen).counter()),
        final(gen).counter() == old(gen).counter() + items_mints(block@),
    decreases block, 1int,
{
    let ghost b = block;
    let ghost v = block@;
    let ghost n0 = gen.counter();
    let ghost e0 = gen.emitted();
    let AstBlock { block_items, .. } = block;
    let ghost orig = block_items@;
    proof {
        crate::resolution::lemma_items_view(orig);
        assert(v.subrange(0, 0) =~= Seq::<ItemV>::empty());
        assert(orig.subrange(0, orig.len() as int) =~= orig);
    }
    let mut items = block_items;
    let total: usize = items.len();
    let mut i: usize = 0;
    while items.len() > 0
        invariant
            i <= orig.len(),
            orig.len() == total,
            v == items_view(orig),
            v.len() == orig.len(),
            forall|k: int| 0 <= k < orig.len() ==> #[trigger] v[k] == item_view(orig[k]),
            items@ == orig.subrange(i as int, orig.len() as int),
            orig == b.block_items@,
            gen.emitted() == e0 + lower_items(v.subrange(0, i as int), n0),
            gen.counter() == n0 + items_mints(v.subrange(0, i as int)),
            n0 + items_mints(v) <= u64::MAX,
        decreases items.len(),
    {
        assert(i < orig.len());
        let item = items.remove(0);
        let ghost p = v.subrange(0, i as int);
        let ghost q = v.subrange(0, i + 1);
        proof {
            assert(item == orig[i as int]);
            assert(q.drop_last() =~= p);
            assert(q.last() == item_view(item));
            lemma_items_mints_prefix(v, i + 1);
        }
        let ghost before = gen.emitted();
        match item {
            AstBlockItem::Declaration(d) => {
                lower_declaration(gen, d);
            },
            AstBlockItem::Statement(st) => {
                proof {
                    assert(decreases_to!(b => b.block_items));
                    assert(decreases_to!(b.block_items => orig));
                    assert(decreases_to!(orig => orig[i as int]));
                    assert(decreases_to!(orig[i as int] => st));
                    assert(decreases_to!(b => st));
                }
                lower_statement(gen, st);
            },
        }
        assert(gen.emitted() =~= e0 + lower_items(q, n0));
        i += 1;
        assert(items@ =~= orig.subrange(i as int, orig.len() as int));
    }
    proof {
        assert(v.subrange(0, i as int) =~= v);
    }
}

/// Emits the instructions of a function body, ending with a return of 0 for
/// control that reaches its end.
pub fn lower_function_body(gen: &mut TacGenerator, body: AstBlock)
    requires
        old(gen).counter() + items_mints(body@) <= u64::MAX,
    ensures
        final(gen).emitted() == old(gen).emitted() + lower_body(body@, old(gen).counter()),
        final(gen).counter() == old(gen).counter() + items_mints(body@),
{
    let ghost n = gen.counter();
    let ghost bv = body@;
    lower_block(gen, body);
    gen.emit(TacInstruction::Return { val: TacVal::Constant(0) });
    assert(gen.emitted() =~= old(gen).emitted() + lower_body(bv, n));
}

} // verus!

//! Properties of scope resolution, stated over the specification functions
//! that the resolver's contracts use.
use vstd::prelude::*;

use crate::ast::{DeclV, ExprV, ForInitV, ItemV, Span, StmtV};
use crate::context::{decimal, digit_char, fresh_name};
use crate::diagnostics::{DiagV, KindV};
use crate::resolution::{
    VarEntry, declare, declared_in_block, decls, expr_diags, inherit, init_decls, init_scope,
    items_decls, lookup, opt_diags, resolve_decl, resolve_expr, resolve_init, resolve_items,
    resolve_stmt,
};

verus! {

/// How many of the diagnostics report a duplicate declaration.
pub open spec fn count_duplicates(ds: Seq<DiagV>) -> nat
    decreases ds.len(),
{
    if ds.len() == 0 {
        0
    } else {
        count_duplicates(ds.drop_last()) + if ds.last().kind is DuplicateVariableDeclaration {
            1nat
        } else {
            0nat
        }
    }
}

proof fn lemma_count_duplicates_append(a: Seq<DiagV>, b: Seq<DiagV>)
    ensures
        count_duplicates(a + b) == count_duplicates(a) + count_duplicates(b),
    decreases b.len(),
{
    if b.len() == 0 {
        assert(a + b =~= a);
    } else {
        assert((a + b).drop_last() =~= a + b.drop_last());
        lemma_count_duplicates_append(a, b.drop_last());
    }
}

proof fn lemma_expr_no_duplicates(e: ExprV, m: Seq<VarEntry>)
    ensures
        count_duplicates(expr_diags(e, m)) == 0,
    decreases e,
{
    match e {
        ExprV::Constant { .. } => {
            assert(expr_diags(e, m).len() == 0);
            assert(count_duplicates(expr_diags(e, m)) == 0);
        },
        ExprV::Var { identifier, span } => {
            match lookup(m, identifier) {
                Some(_) => {
                    assert(expr_diags(e, m).len() == 0);
                },
                None => {
                    let ds = expr_diags(e, m);
                    assert(ds.drop_last() =~= Seq::<DiagV>::empty());
                    assert(count_duplicates(ds.drop_last()) == 0);
                    assert(!(ds.last().kind is DuplicateVariableDeclaration));
                    assert(count_duplicates(ds) == 0);
                },
            }
        },
        ExprV::Unary { operand, .. } => {
            lemma_expr_no_duplicates(*operand, m);
            assert(expr_diags(e, m) == expr_diags(*operand, m));
        },
        ExprV::Binary { left, right, .. } => {
            lemma_expr_no_duplicates(*left, m);
            lemma_expr_no_duplicates(*right, m);
            lemma_count_duplicates_append(expr_diags(*left, m), expr_diags(*right, m));
            assert(expr_diags(e, m) == expr_diags(*left, m) + expr_diags(*right, m));
        },
        ExprV::Assignment { left, right, .. } => {
            lemma_expr_no_duplicates(*left, m);
            lemma_expr_no_duplicates(*right, m);
            let a = expr_diags(*left, m) + expr_diags(*right, m);
            lemma_count_duplicates_append(expr_diags(*left, m), expr_diags(*right, m));
            let tail = if (*left) is Var {
                Seq::<DiagV>::empty()
            } else {
                seq![error_lvalue(*left)]
            };
            lemma_count_duplicates_append(a, tail);
            if !((*left) is Var) {
                assert(tail.drop_last() =~= Seq::<DiagV>::empty());
                assert(count_duplicates(tail.drop_last()) == 0);
                assert(tail.last() == error_lvalue(*left));
            } else {
                assert(tail.len() == 0);
            }
            assert(expr_diags(e, m) == a + tail);
            assert(count_duplicates(tail) == 0);
        },
        ExprV::Conditional { condition, then_branch, else_branch, .. } => {
            lemma_expr_no_duplicates(*condition, m);
            lemma_expr_no_duplicates(*then_branch, m);
            lemma_expr_no_duplicates(*else_branch, m);
            lemma_count_duplicates_append(expr_diags(*condition, m), expr_diags(*then_branch, m));
            lemma_count_duplicates_append(
                expr_diags(*condition, m) + expr_diags(*then_branch, m),
                expr_diags(*else_branch, m),
            );
            assert(expr_diags(e, m) == expr_diags(*condition, m) + expr_diags(*then_branch, m)
                + expr_diags(*else_branch, m));
        },
    }
}

spec fn error_lvalue(left: ExprV) -> DiagV {
    crate::diagnostics::error_of(
        crate::ast::span_of(left),
        KindV::Custom(crate::resolution::lvalue_message()),
    )
}

proof fn lemma_digit_char_injective(a: nat, b: nat)
    requires
        a < 10,
        b < 10,
        digit_char(a) == digit_char(b),
    ensures
        a == b,
{
}

proof fn lemma_decimal_shape(n: nat)
    ensures
        decimal(n).len() >= 1,
        n >= 10 ==> decimal(n).len() >= 2,
        forall|k: int| 0 <= k < decimal(n).len() ==> #[trigger] decimal(n)[k] != '.',
    decreases n,
{
    if n >= 10 {
        lemma_decimal_shape(n / 10);
    }
}

proof fn lemma_decimal_injective(i: nat, j: nat)
    requires
        decimal(i) == decimal(j),
    ensures
        i == j,
    decreases i,
{
    lemma_decimal_shape(i);
    lemma_decimal_shape(j);
    if i < 10 && j < 10 {
        assert(decimal(i)[0] == digit_char(i));
        assert(decimal(j)[0] == digit_char(j));
        lemma_digit_char_injective(i, j);
    } else if i >= 10 && j >= 10 {
        assert(decimal(i).last() == digit_char(i % 10));
        assert(decimal(j).last() == digit_char(j % 10));
        lemma_digit_char_injective(i % 10, j % 10);
        assert(decimal(i / 10) =~= decimal(i).drop_last());
        assert(decimal(j / 10) =~= decimal(j).drop_last());
        lemma_decimal_injective(i / 10, j / 10);
        assert(i == 10 * (i / 10) + i % 10);
        assert(j == 10 * (j / 10) + j % 10);
    } else {
        lemma_decimal_shape(i / 10);
        lemma_decimal_shape(j / 10);
    }
}

/// Names minted from different values of the counter differ, whatever the
/// surface names they derive from.
pub proof fn lemma_fresh_names_distinct(a: Seq<char>, b: Seq<char>, i: nat, j: nat)
    requires
        i != j,
    ensures
        fresh_name(a, i) != fresh_name(b, j),
{
    if fresh_name(a, i) == fresh_name(b, j) {
        let s = fresh_name(a, i);
        let di = decimal(i);
        let dj = decimal(j);
        lemma_decimal_shape(i);
        lemma_decimal_shape(j);
        let l = s.len();
        assert(s == a + seq!['.'] + di);
        assert(s == b + seq!['.'] + dj);
        if di.len() < dj.len() {
            let p = l - di.len() - 1;
            assert(s[p] == '.');
            assert(s[p] == dj[dj.len() - di.len() - 1]);
        } else if dj.len() < di.len() {
            let p = l - dj.len() - 1;
            assert(s[p] == '.');
            assert(s[p] == di[di.len() - dj.len() - 1]);
        } else {
            assert(di =~= s.subrange(l - di.len(), l as int));
            assert(dj =~= s.subrange(l - dj.len(), l as int));
            lemma_decimal_injective(i, j);
        }
    }
}

/// Declaring the same name twice directly in one block reports exactly one
/// duplicate declaration, and each declaration still gets its own unique name.
pub proof fn lemma_duplicate_detection(m: Seq<VarEntry>, d1: DeclV, d2: DeclV, n: nat)
    requires
        d1.name == d2.name,
        !declared_in_block(m, d1.name),
    ensures
        ({
            let r1 = resolve_decl(d1, m, n);
            let r2 = resolve_decl(d2, declare(m, d1.name, n), n + 1);
            count_duplicates(r1.1 + r2.1) == 1 && r1.0.name != r2.0.name
        }),
{
    let m1 = declare(m, d1.name, n);
    let m2 = declare(m1, d2.name, n + 1);
    let r1 = resolve_decl(d1, m, n);
    let r2 = resolve_decl(d2, m1, n + 1);
    assert(m1.last().name == d1.name);
    assert(declared_in_block(m1, d2.name));
    let dup = seq![
        crate::diagnostics::error_of(
            d2.span,
            KindV::DuplicateVariableDeclaration { name: d2.name },
        ),
    ];
    assert(dup.drop_last() =~= Seq::<DiagV>::empty());
    assert(dup.last().kind is DuplicateVariableDeclaration);
    assert(count_duplicates(dup.drop_last()) == 0);
    assert(count_duplicates(dup) == 1);
    match d1.init {
        Some(e) => lemma_expr_no_duplicates(e, m1),
        None => {},
    }
    match d2.init {
        Some(e) => lemma_expr_no_duplicates(e, m2),
        None => {},
    }
    assert(count_duplicates(opt_diags(d1.init, m1)) == 0);
    assert(count_duplicates(opt_diags(d2.init, m2)) == 0);
    assert(r1.1 =~= Seq::empty() + opt_diags(d1.init, m1));
    lemma_count_duplicates_append(dup, opt_diags(d2.init, m2));
    lemma_count_duplicates_append(r1.1, r2.1);
    lemma_fresh_names_distinct(d1.name, d2.name, n, n + 1);
}

/// `break` and `continue` are reported, once, exactly when no loop encloses
/// them; wrapping one in a block that is not a loop changes nothing.
pub proof fn lemma_loop_gating(
    s: StmtV,
    m: Seq<VarEntry>,
    n: nat,
    depth: nat,
    block_span: Span,
)
    requires
        s is Break || s is Continue,
    ensures
        (resolve_stmt(s, m, n, depth).1.len() == 1) == (depth == 0),
        depth > 0 ==> resolve_stmt(s, m, n, depth).1.len() == 0,
        resolve_stmt(
            StmtV::Compound { items: seq![ItemV::Statement(s)], span: block_span },
            m,
            n,
            depth,
        ).1 == resolve_stmt(s, inherit(m), n, depth).1,
{
    let items = seq![ItemV::Statement(s)];
    assert(items.drop_last() =~= Seq::<ItemV>::empty());
    let p = resolve_items(items.drop_last(), inherit(m), n, depth);
    assert(p.1 =~= Seq::<DiagV>::empty());
    assert(crate::resolution::items_decls(items.drop_last()) == 0);
    let r = resolve_stmt(s, inherit(m), n, depth);
    assert(resolve_items(items, inherit(m), n, depth).1 =~= p.1 + r.1);
    assert(p.1 + r.1 =~= r.1);
    assert(resolve_stmt(s, m, n, depth).1 == r.1);
}

/// A declaration of `x` in a nested block makes a later reference to `x` in
/// that block denote the new binding; a reference after the block closes
/// denotes the enclosing binding again.
pub proof fn lemma_shadowing(
    m: Seq<VarEntry>,
    x: Seq<char>,
    init: Option<ExprV>,
    n: nat,
    depth: nat,
    sp: Span,
)
    requires
        lookup(m, x) is Some,
    ensures
        ({
            let inner_ref = ItemV::Statement(
                StmtV::Expression { expression: ExprV::Var { identifier: x, span: sp }, span: sp },
            );
            let inner = seq![
                ItemV::Declaration(DeclV { name: x, init, span: sp }),
                inner_ref,
            ];
            let outer = seq![
                ItemV::Statement(StmtV::Compound { items: inner, span: sp }),
                inner_ref,
            ];
            let r = resolve_items(outer, m, n, depth).0;
            &&& r.len() == 2
            &&& r[0] matches ItemV::Statement(StmtV::Compound { items, .. })
                && items.len() == 2
                && items[1] == ItemV::Statement(
                StmtV::Expression {
                    expression: ExprV::Var { identifier: fresh_name(x, n), span: sp },
                    span: sp,
                },
            )
            &&& r[1] == ItemV::Statement(
                StmtV::Expression {
                    expression: ExprV::Var { identifier: lookup(m, x)->0.unique, span: sp },
                    span: sp,
                },
            )
        }),
{
    let inner_ref = ItemV::Statement(
        StmtV::Expression { expression: ExprV::Var { identifier: x, span: sp }, span: sp },
    );
    let decl = ItemV::Declaration(DeclV { name: x, init, span: sp });
    let inner = seq![decl, inner_ref];
    let compound = ItemV::Statement(StmtV::Compound { items: inner, span: sp });
    let outer = seq![compound, inner_ref];
    let h = inherit(m);
    // inner block
    assert(inner.drop_last() =~= seq![decl]);
    assert(seq![decl].drop_last() =~= Seq::<ItemV>::empty());
    let p0 = resolve_items(Seq::<ItemV>::empty(), h, n, depth);
    let p1 = resolve_items(seq![decl], h, n, depth);
    assert(p1.2 == declare(h, x, n));
    assert(crate::resolution::items_decls(seq![decl]) == 1) by {
        assert(crate::resolution::items_decls(Seq::<ItemV>::empty()) == 0);
    }
    let m1 = declare(h, x, n);
    assert(lookup(m1, x) == Some(m1.last()));
    assert(p0.0.len() == 0 && p0.2 == h);
    assert(p1.0.len() == 1);
    let ri = resolve_items(inner, h, n, depth);
    let ex = ExprV::Var { identifier: x, span: sp };
    assert(resolve_expr(ex, m1) == ExprV::Var { identifier: fresh_name(x, n), span: sp });
    let k = n + crate::resolution::items_decls(seq![decl]);
    let rs = resolve_stmt(StmtV::Expression { expression: ex, span: sp }, m1, k, depth);
    assert(rs.0 == StmtV::Expression { expression: resolve_expr(ex, m1), span: sp });
    assert(ri.0 == p1.0.push(ItemV::Statement(rs.0)));
    assert(ri.0.len() == 2);
    // outer block
    assert(outer.drop_last() =~= seq![compound]);
    assert(seq![compound].drop_last() =~= Seq::<ItemV>::empty());
    let q0 = resolve_items(Seq::<ItemV>::empty(), m, n, depth);
    assert(q0.2 == m && q0.0.len() == 0);
    let q1 = resolve_items(seq![compound], m, n, depth);
    let rc = resolve_stmt(StmtV::Compound { items: inner, span: sp }, m, n, depth);
    assert(rc.0 == StmtV::Compound { items: ri.0, span: sp });
    assert(q1.0 == q0.0.push(ItemV::Statement(rc.0)));
    assert(q1.2 == m);
    let ro = resolve_items(outer, m, n, depth);
    let k2 = n + crate::resolution::items_decls(seq![compound]);
    let ro1 = resolve_stmt(StmtV::Expression { expression: ex, span: sp }, m, k2, depth);
    assert(ro1.0 == StmtV::Expression { expression: resolve_expr(ex, m), span: sp });
    assert(ro.0 == q1.0.push(ItemV::Statement(ro1.0)));
    assert(ro.0.len() == 2);
    assert(ro.0[0] == ItemV::Statement(rc.0));
    assert(ri.0[1] == ItemV::Statement(
        StmtV::Expression {
            expression: ExprV::Var { identifier: fresh_name(x, n), span: sp },
            span: sp,
        },
    ));
}

/// The names that a statement declares, in order.
pub open spec fn stmt_names(s: StmtV) -> Seq<Seq<char>>
    decreases s,
{
    match s {
        StmtV::If { then_branch, else_branch, .. } => stmt_names(*then_branch) + match else_branch {
            Some(b) => stmt_names(*b),
            None => Seq::empty(),
        },
        StmtV::Compound { items, .. } => items_names(items),
        StmtV::While { body, .. } => stmt_names(*body),
        StmtV::DoWhile { body, .. } => stmt_names(*body),
        StmtV::For { for_init, body, .. } => match for_init {
            ForInitV::InitDeclaration(d) => seq![d.name] + stmt_names(*body),
            ForInitV::InitExpression(_) => stmt_names(*body),
        },
        _ => Seq::empty(),
    }
}

/// The names that the items of a block declare, nested blocks included, in order.
pub open spec fn items_names(items: Seq<ItemV>) -> Seq<Seq<char>>
    decreases items,
{
    if items.len() == 0 {
        Seq::empty()
    } else {
        items_names(items.drop_last()) + match items.last() {
            ItemV::Statement(s) => stmt_names(s),
            ItemV::Declaration(d) => seq![d.name],
        }
    }
}

proof fn lemma_stmt_names(s: StmtV, m: Seq<VarEntry>, n: nat, depth: nat)
    ensures
        stmt_names(s).len() == decls(s),
        stmt_names(resolve_stmt(s, m, n, depth).0).len() == decls(s),
        forall|k: int|
            0 <= k < decls(s) ==> #[trigger] stmt_names(resolve_stmt(s, m, n, depth).0)[k]
                == fresh_name(stmt_names(s)[k], n + k as nat),
    decreases s,
{
    let out = resolve_stmt(s, m, n, depth).0;
    match s {
        StmtV::If { condition, then_branch, else_branch, span } => {
            lemma_stmt_names(*then_branch, m, n, depth);
            let t = resolve_stmt(*then_branch, m, n, depth).0;
            match else_branch {
                Some(b) => {
                    let n2 = n + decls(*then_branch);
                    lemma_stmt_names(*b, m, n2, depth);
                    let e = resolve_stmt(*b, m, n2, depth).0;
                    assert(stmt_names(out) == stmt_names(t) + stmt_names(e));
                    assert forall|k: int| 0 <= k < decls(s) implies #[trigger] stmt_names(out)[k]
                        == fresh_name(stmt_names(s)[k], n + k as nat) by {
                        if k >= decls(*then_branch) {
                            let j = k - decls(*then_branch);
                            assert(stmt_names(out)[k] == stmt_names(e)[j]);
                            assert(stmt_names(s)[k] == stmt_names(*b)[j]);
                        }
                    }
                },
                None => {
                    assert(stmt_names(out) =~= stmt_names(t));
                    assert(stmt_names(s) =~= stmt_names(*then_branch));
                },
            }
        },
        StmtV::Compound { items, span } => {
            lemma_items_names(items, inherit(m), n, depth);
        },
        StmtV::While { body, .. } => {
            lemma_stmt_names(*body, m, n, depth + 1);
        },
        StmtV::DoWhile { body, .. } => {
            lemma_stmt_names(*body, m, n, depth + 1);
        },
        StmtV::For { for_init, condition, post, body, label, span } => {
            let h = init_scope(for_init, inherit(m), n);
            let n2 = n + init_decls(for_init);
            lemma_stmt_names(*body, h, n2, depth + 1);
            let b = resolve_stmt(*body, h, n2, depth + 1).0;
            match for_init {
                ForInitV::InitDeclaration(d) => {
                    let i = resolve_init(for_init, inherit(m), n).0;
                    assert(i == ForInitV::InitDeclaration(resolve_decl(d, inherit(m), n).0));
                    assert(stmt_names(out) == seq![fresh_name(d.name, n)] + stmt_names(b));
                    assert forall|k: int| 0 <= k < decls(s) implies #[trigger] stmt_names(out)[k]
                        == fresh_name(stmt_names(s)[k], n + k as nat) by {
                        if k >= 1 {
                            assert(stmt_names(out)[k] == stmt_names(b)[k - 1]);
                            assert(stmt_names(s)[k] == stmt_names(*body)[k - 1]);
                        }
                    }
                },
                ForInitV::InitExpression(_) => {},
            }
        },
        _ => {
            assert(stmt_names(s).len() == 0);
            assert(stmt_names(out).len() == 0);
        },
    }
}

proof fn lemma_items_names(items: Seq<ItemV>, m: Seq<VarEntry>, n: nat, depth: nat)
    ensures
        items_names(items).len() == items_decls(items),
        items_names(resolve_items(items, m, n, depth).0).len() == items_decls(items),
        forall|k: int|
            0 <= k < items_decls(items) ==> #[trigger] items_names(
                resolve_items(items, m, n, depth).0,
            )[k] == fresh_name(items_names(items)[k], n + k as nat),
    decreases items,
{
    let r = resolve_items(items, m, n, depth);
    if items.len() == 0 {
        assert(r.0.len() == 0);
    } else {
        let init = items.drop_last();
        lemma_items_names(init, m, n, depth);
        let p = resolve_items(init, m, n, depth);
        let k0 = n + items_decls(init);
        let c = items_decls(init) as int;
        match items.last() {
            ItemV::Declaration(d) => {
                let x = ItemV::Declaration(resolve_decl(d, p.2, k0).0);
                assert(r.0 == p.0.push(x));
                assert(r.0.drop_last() =~= p.0);
                assert(items_names(r.0) == items_names(p.0) + seq![fresh_name(d.name, k0)]);
                assert forall|k: int| 0 <= k < items_decls(items) implies #[trigger] items_names(
                    r.0,
                )[k] == fresh_name(items_names(items)[k], n + k as nat) by {
                    if k < c {
                        assert(items_names(r.0)[k] == items_names(p.0)[k]);
                        assert(items_names(items)[k] == items_names(init)[k]);
                    }
                }
            },
            ItemV::Statement(st) => {
                lemma_stmt_names(st, p.2, k0, depth);
                let o = resolve_stmt(st, p.2, k0, depth).0;
                assert(r.0 == p.0.push(ItemV::Statement(o)));
                assert(r.0.drop_last() =~= p.0);
                assert(items_names(r.0) == items_names(p.0) + stmt_names(o));
                assert forall|k: int| 0 <= k < items_decls(items) implies #[trigger] items_names(
                    r.0,
                )[k] == fresh_name(items_names(items)[k], n + k as nat) by {
                    if k < c {
                        assert(items_names(r.0)[k] == items_names(p.0)[k]);
                        assert(items_names(items)[k] == items_names(init)[k]);
                    } else {
                        assert(items_names(r.0)[k] == stmt_names(o)[k - c]);
                        assert(items_names(items)[k] == stmt_names(st)[k - c]);
                    }
                }
            },
        }
    }
}

/// After resolution, the names declared anywhere in a block, nested blocks and
/// loop headers included, are pairwise distinct, even where surface names repeat.
pub proof fn lemma_declared_names_unique(items: Seq<ItemV>, m: Seq<VarEntry>, n: nat, depth: nat)
    ensures
        forall|i: int, j: int|
            0 <= i < j < items_names(resolve_items(items, m, n, depth).0).len() ==> #[trigger]
            items_names(resolve_items(items, m, n, depth).0)[i] != #[trigger] items_names(
                resolve_items(items, m, n, depth).0,
            )[j],
{
    lemma_items_names(items, m, n, depth);
    let out = items_names(resolve_items(items, m, n, depth).0);
    let src = items_names(items);
    assert forall|i: int, j: int| 0 <= i < j < out.len() implies #[trigger] out[i] != #[trigger] out[j] by {
        lemma_fresh_names_distinct(src[i], src[j], n + i as nat, n + j as nat);
    }
}

} // verus!

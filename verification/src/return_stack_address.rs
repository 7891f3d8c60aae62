use vstd::prelude::*;

verus! {

use crate::diagnostics::{diag, Diagnostic, RuleId};
use crate::tree::{spec_peel, Block, Expr, ExprKind, Stmt};

/// The variables declared directly by a block's own statements, in
/// declaration order.
pub open spec fn spec_block_decls(stmts: Seq<Stmt>) -> Seq<u64>
    decreases stmts.len(),
{
    if stmts.len() == 0 {
        Seq::empty()
    } else {
        spec_block_decls(stmts.drop_last()) + (match stmts.last() {
            Stmt::Decl { local } => seq![local.var],
            Stmt::ExprStmt { .. } => Seq::empty(),
        })
    }
}

/// The diagnostics of the explicit early returns among a block's own
/// statements: a return whose value peels to a direct address-of of a
/// variable in scope reports a stack-address escape. The address of a
/// parameter is never in the scope and never reports.
pub open spec fn spec_ret_diags(stmts: Seq<Stmt>, scope: Seq<u64>) -> Seq<Diagnostic>
    decreases stmts.len(),
{
    if stmts.len() == 0 {
        Seq::empty()
    } else {
        spec_ret_diags(stmts.drop_last(), scope) + spec_ret_stmt_diags(stmts.last(), scope)
    }
}

/// The diagnostic of one statement, where it is an early return of a
/// peeled direct address-of of an in-scope variable.
pub open spec fn spec_ret_stmt_diags(s: Stmt, scope: Seq<u64>) -> Seq<Diagnostic> {
    match s {
        Stmt::ExprStmt { expr } => match expr.kind {
            ExprKind::Ret { retval: Some(r) } => spec_addr_of_diags(spec_peel(*r), scope),
            _ => Seq::empty(),
        },
        Stmt::Decl { .. } => Seq::empty(),
    }
}

/// The diagnostic of an already-peeled candidate value, where it is a
/// direct address-of of a variable declared in the scope under analysis.
pub open spec fn spec_addr_of_diags(p: Expr, scope: Seq<u64>) -> Seq<Diagnostic> {
    match p.kind {
        ExprKind::AddrOf { inner } => if inner.kind is Var && scope.contains(inner.kind->Var_var) {
            seq![diag(RuleId::ReturnStackAddress, p.span)]
        } else {
            Seq::empty()
        },
        _ => Seq::empty(),
    }
}

/// The diagnostics and the grown memo of analyzing one lexical block under
/// an accumulated scope: a block already in the memo was handled by an
/// enclosing pass and yields nothing; otherwise the block is memoized, its
/// own declarations extend the scope, its early returns are examined, and
/// its implicit trailing value is peeled.
pub open spec fn spec_analyze_block(b: Block, scope: Seq<u64>, memo: Seq<u64>) -> (Seq<Diagnostic>, Seq<u64>)
    decreases b,
{
    if memo.contains(b.id) {
        (Seq::empty(), memo)
    } else {
        let memo1 = memo.push(b.id);
        let scope1 = scope + spec_block_decls(b.stmts@);
        let d1 = spec_ret_diags(b.stmts@, scope1);
        match b.trailing {
            Some(t) => {
                let r = spec_escape_value(*t, scope1, memo1);
                (d1 + r.0, r.1)
            },
            None => (d1, memo1),
        }
    }
}

/// Peels a block's candidate value to its innermost expression: through
/// casts, and through nested blocks, whose own declarations join the scope
/// and which are memoized as handled on the way.
pub open spec fn spec_escape_value(e: Expr, scope: Seq<u64>, memo: Seq<u64>) -> (Seq<Diagnostic>, Seq<u64>)
    decreases e,
{
    match e.kind {
        ExprKind::Cast { inner } => spec_escape_value(*inner, scope, memo),
        ExprKind::Blk { block } => spec_analyze_block(*block, scope, memo),
        _ => (spec_addr_of_diags(e, scope), memo),
    }
}

/// Analyzes one lexical block, appending its diagnostics and recording it
/// and every nested block it handled in the memo.
pub fn analyze_block(b: &Block, scope: &Vec<u64>, memo: &mut Vec<u64>, out: &mut Vec<Diagnostic>)
    ensures
        final(out)@ == old(out)@ + spec_analyze_block(*b, scope@, old(memo)@).0,
        final(memo)@ == spec_analyze_block(*b, scope@, old(memo)@).1,
    decreases *b,
{
    if crate::tree::contains_atom(memo, b.id) {
        proof {
            assert(old(out)@ + Seq::<Diagnostic>::empty() =~= old(out)@);
        }
        return ;
    }
    memo.push(b.id);
    let mut scope1: Vec<u64> = Vec::new();
    let mut i: usize = 0;
    while i < scope.len()
        invariant
            i <= scope@.len(),
            scope1@ == scope@.take(i as int),
        decreases scope@.len() - i,
    {
        scope1.push(scope[i]);
        proof {
            assert(scope@.take(i as int + 1) =~= scope@.take(i as int).push(scope@[i as int]));
        }
        i = i + 1;
    }
    proof {
        assert(scope@.take(scope@.len() as int) =~= scope@);
    }
    let mut j: usize = 0;
    while j < b.stmts.len()
        invariant
            j <= b.stmts@.len(),
            scope1@ == scope@ + spec_block_decls(b.stmts@.take(j as int)),
        decreases b.stmts@.len() - j,
    {
        proof {
            assert(b.stmts@.take(j as int + 1).drop_last() =~= b.stmts@.take(j as int));
            assert(b.stmts@.take(j as int + 1).last() == b.stmts@[j as int]);
        }
        match &b.stmts[j] {
            Stmt::Decl { local } => {
                scope1.push(local.var);
            },
            Stmt::ExprStmt { .. } => {},
        }
        proof {
            assert(scope1@ =~= scope@ + spec_block_decls(b.stmts@.take(j as int + 1)));
        }
        j = j + 1;
    }
    proof {
        assert(b.stmts@.take(b.stmts@.len() as int) =~= b.stmts@);
    }
    let mut k: usize = 0;
    while k < b.stmts.len()
        invariant
            k <= b.stmts@.len(),
            scope1@ == scope@ + spec_block_decls(b.stmts@),
            out@ == old(out)@ + spec_ret_diags(b.stmts@.take(k as int), scope1@),
        decreases b.stmts@.len() - k,
    {
        proof {
            assert(b.stmts@.take(k as int + 1).drop_last() =~= b.stmts@.take(k as int));
            assert(b.stmts@.take(k as int + 1).last() == b.stmts@[k as int]);
        }
        if let Stmt::ExprStmt { expr } = &b.stmts[k] {
            if let ExprKind::Ret { retval: Some(r) } = &expr.kind {
                let p = crate::peel_casts(r);
                if let ExprKind::AddrOf { inner } = &p.kind {
                    if let ExprKind::Var { var } = &inner.kind {
                        if crate::tree::contains_atom(&scope1, *var) {
                            crate::diagnostics::emit(out, RuleId::ReturnStackAddress, p.span);
                        }
                    }
                }
            }
        }
        proof {
            assert(out@ =~= old(out)@ + spec_ret_diags(b.stmts@.take(k as int + 1), scope1@));
        }
        k = k + 1;
    }
    if let Some(t) = &b.trailing {
        escape_value(t, &scope1, memo, out);
        proof {
            assert(final(out)@ =~= old(out)@ + spec_analyze_block(*b, scope@, old(memo)@).0);
        }
    }
}

/// Peels one candidate value, reporting a direct address-of of in-scope
/// stack storage and descending into nested blocks.
pub fn escape_value(e: &Expr, scope: &Vec<u64>, memo: &mut Vec<u64>, out: &mut Vec<Diagnostic>)
    ensures
        final(out)@ == old(out)@ + spec_escape_value(*e, scope@, old(memo)@).0,
        final(memo)@ == spec_escape_value(*e, scope@, old(memo)@).1,
    decreases *e,
{
    match &e.kind {
        ExprKind::Cast { inner } => {
            escape_value(inner, scope, memo, out);
        },
        ExprKind::Blk { block } => {
            analyze_block(block, scope, memo, out);
        },
        ExprKind::AddrOf { inner } => {
            if let ExprKind::Var { var } = &inner.kind {
                if crate::tree::contains_atom(scope, *var) {
                    crate::diagnostics::emit(out, RuleId::ReturnStackAddress, e.span);
                } else {
                    proof {
                        assert(old(out)@ + Seq::<Diagnostic>::empty() =~= old(out)@);
                    }
                }
            } else {
                proof {
                    assert(old(out)@ + Seq::<Diagnostic>::empty() =~= old(out)@);
                }
            }
            proof {
                assert(final(out)@ =~= old(out)@ + spec_escape_value(*e, scope@, old(memo)@).0);
            }
        },
        _ => {
            proof {
                assert(old(out)@ + Seq::<Diagnostic>::empty() =~= old(out)@);
            }
        },
    }
}

/// Pushing keeps every element and adds the pushed one.
proof fn lemma_push_contains(s: Seq<u64>, y: u64)
    ensures
        s.push(y).contains(y),
        forall|x: u64| s.contains(x) ==> s.push(y).contains(x),
{
    assert(s.push(y)[s.len() as int] == y);
    assert forall|x: u64| s.contains(x) implies s.push(y).contains(x) by {
        let j = choose|j: int| 0 <= j < s.len() && s[j] == x;
        assert(s.push(y)[j] == x);
    }
}

/// After a block is analyzed, its identity stands in the memo, and the
/// memo only ever grows.
pub proof fn lemma_analyze_block_memo(b: Block, scope: Seq<u64>, memo: Seq<u64>)
    ensures
        spec_analyze_block(b, scope, memo).1.contains(b.id),
        forall|x: u64| memo.contains(x) ==> spec_analyze_block(b, scope, memo).1.contains(x),
    decreases b,
{
    if memo.contains(b.id) {
    } else {
        let memo1 = memo.push(b.id);
        lemma_push_contains(memo, b.id);
        match b.trailing {
            Some(t) => {
                lemma_escape_value_memo(*t, scope + spec_block_decls(b.stmts@), memo1);
            },
            None => {},
        }
    }
}

/// Peeling a candidate value only ever grows the memo.
pub proof fn lemma_escape_value_memo(e: Expr, scope: Seq<u64>, memo: Seq<u64>)
    ensures
        forall|x: u64| memo.contains(x) ==> spec_escape_value(e, scope, memo).1.contains(x),
    decreases e,
{
    match e.kind {
        ExprKind::Cast { inner } => {
            lemma_escape_value_memo(*inner, scope, memo);
        },
        ExprKind::Blk { block } => {
            lemma_analyze_block_memo(*block, scope, memo);
        },
        _ => {},
    }
}

/// A block the memo already records — one an enclosing pass has handled —
/// is never re-analyzed: it yields no diagnostic and leaves the memo as it
/// stands.
pub proof fn lemma_memoized_block_not_reanalyzed(b: Block, scope: Seq<u64>, memo: Seq<u64>)
    requires
        memo.contains(b.id),
    ensures
        spec_analyze_block(b, scope, memo).0 == Seq::<Diagnostic>::empty(),
        spec_analyze_block(b, scope, memo).1 == memo,
{
}

/// Without resetting the memo, re-analyzing the same block right after a
/// pass over it reports nothing: no block is double-reported across a
/// nested enclosing re-traversal.
pub proof fn lemma_no_double_report_without_reset(b: Block, scope: Seq<u64>, memo: Seq<u64>)
    ensures
        spec_analyze_block(b, scope, spec_analyze_block(b, scope, memo).1).0 == Seq::<
            Diagnostic,
        >::empty(),
{
    lemma_analyze_block_memo(b, scope, memo);
    lemma_memoized_block_not_reanalyzed(b, scope, spec_analyze_block(b, scope, memo).1);
}

/// Resetting the block memo to what it held before a pass and re-running
/// the analysis over the same unit yields identical diagnostics: what the
/// analysis reports depends on nothing but the block, the scope and the
/// memo, so two runs whose memos agree — in particular a run and its
/// re-run after a reset — agree on every diagnostic and on the memo they
/// leave behind.
pub proof fn lemma_reset_and_rerun_identical(
    b: Block,
    scope: Seq<u64>,
    first_memo: Seq<u64>,
    second_memo: Seq<u64>,
)
    requires
        first_memo == second_memo,
    ensures
        spec_analyze_block(b, scope, first_memo).0 == spec_analyze_block(b, scope, second_memo).0,
        spec_analyze_block(b, scope, first_memo).1 == spec_analyze_block(b, scope, second_memo).1,
{
}

} // verus!

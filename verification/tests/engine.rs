use guidelines::diagnostics::{Diagnostic, RuleId};
use guidelines::tree::{
    Block, Callee, Expr, ExprKind, FnKind, LocalBinding, NameEntry, NameEnv, PathPattern, Stmt,
};
use guidelines::LintGroup;

fn expr(kind: ExprKind, span: u64) -> Expr {
    Expr { span, kind }
}

fn var(v: u64, span: u64) -> Expr {
    expr(ExprKind::Var { var: v }, span)
}

fn plain_callee(id: u64) -> Callee {
    Callee { id: Some(id), name: id, foreign: false, char_conversion: false }
}

fn call(c: Callee, args: Vec<Expr>, span: u64) -> Expr {
    expr(ExprKind::Call { callee: c, args }, span)
}

fn deref(inner: Expr, span: u64) -> Expr {
    expr(ExprKind::Deref { inner: Box::new(inner) }, span)
}

fn ptr_local(v: u64, init: Option<Expr>, span: u64) -> LocalBinding {
    LocalBinding { span, var: v, is_ptr: true, annotated: true, init }
}

fn pat(segments: &[u64]) -> PathPattern {
    PathPattern { segments: segments.to_vec() }
}

fn empty_group() -> LintGroup {
    LintGroup::new(vec![], vec![], vec![], false, vec![], vec![], vec![], vec![])
}

#[test]
fn null_deref_is_flagged() {
    let mut g = empty_group();
    g.check_local(&ptr_local(1, Some(expr(ExprKind::NullLit, 2)), 1));
    g.check_expr(&deref(var(1, 3), 4));
    assert_eq!(g.diags, vec![Diagnostic { rule: RuleId::NullPtrDereference, span: 4 }]);
}

#[test]
fn assignment_before_deref_suppresses_null_report() {
    let mut g = empty_group();
    g.check_local(&ptr_local(1, Some(expr(ExprKind::NullLit, 2)), 1));
    g.check_expr(&expr(
        ExprKind::Assign { target: 1, value: Box::new(expr(ExprKind::Other, 5)) },
        6,
    ));
    g.check_expr(&deref(var(1, 7), 8));
    assert!(g.diags.is_empty());
}

#[test]
fn double_free_reports_exactly_once_at_second_call() {
    let mut g = empty_group();
    g.mem_free_fns.ids.push(50);
    let free = plain_callee(50);
    g.check_local(&ptr_local(1, Some(expr(ExprKind::Other, 1)), 1));
    g.check_expr(&call(free, vec![var(1, 10)], 11));
    assert!(g.diags.is_empty());
    g.check_expr(&call(free, vec![var(1, 12)], 13));
    assert_eq!(g.diags, vec![Diagnostic { rule: RuleId::PtrDoubleFree, span: 13 }]);
}

#[test]
fn assignment_between_frees_suppresses_double_free() {
    let mut g = empty_group();
    g.mem_free_fns.ids.push(50);
    let free = plain_callee(50);
    g.check_expr(&call(free, vec![var(1, 10)], 11));
    g.check_expr(&expr(
        ExprKind::Assign { target: 1, value: Box::new(expr(ExprKind::Other, 12)) },
        12,
    ));
    g.check_expr(&call(free, vec![var(1, 13)], 14));
    assert!(g.diags.is_empty());
}

#[test]
fn dangling_deref_after_free() {
    let mut g = empty_group();
    g.mem_free_fns.ids.push(50);
    g.check_local(&ptr_local(1, Some(expr(ExprKind::Other, 1)), 1));
    g.check_expr(&call(plain_callee(50), vec![var(1, 2)], 3));
    g.check_expr(&deref(var(1, 4), 5));
    assert_eq!(g.diags, vec![Diagnostic { rule: RuleId::DanglingPtrDereference, span: 5 }]);
}

#[test]
fn reassignment_after_free_suppresses_dangling_deref() {
    let mut g = empty_group();
    g.mem_free_fns.ids.push(50);
    g.check_expr(&call(plain_callee(50), vec![var(1, 2)], 3));
    g.check_expr(&expr(
        ExprKind::Assign { target: 1, value: Box::new(expr(ExprKind::Other, 4)) },
        4,
    ));
    g.check_expr(&deref(var(1, 5), 6));
    assert!(g.diags.is_empty());
}

#[test]
fn returned_block_address_of_its_own_local_is_flagged() {
    let mut g = empty_group();
    let blk = Block {
        id: 100,
        span: 1,
        stmts: vec![Stmt::Decl { local: ptr_local(7, None, 2) }],
        trailing: Some(Box::new(expr(ExprKind::AddrOf { inner: Box::new(var(7, 3)) }, 4))),
    };
    g.check_block(&blk);
    assert_eq!(g.diags, vec![Diagnostic { rule: RuleId::ReturnStackAddress, span: 4 }]);
}

#[test]
fn address_of_a_parameter_is_not_flagged() {
    let mut g = empty_group();
    let blk = Block {
        id: 100,
        span: 1,
        stmts: vec![],
        trailing: Some(Box::new(expr(ExprKind::AddrOf { inner: Box::new(var(99, 3)) }, 4))),
    };
    g.check_block(&blk);
    assert!(g.diags.is_empty());
}

#[test]
fn early_return_of_local_address_is_flagged() {
    let mut g = empty_group();
    let ret = expr(
        ExprKind::Ret {
            retval: Some(Box::new(expr(
                ExprKind::Cast {
                    inner: Box::new(expr(ExprKind::AddrOf { inner: Box::new(var(7, 3)) }, 4)),
                },
                5,
            ))),
        },
        6,
    );
    let blk = Block {
        id: 100,
        span: 1,
        stmts: vec![
            Stmt::Decl { local: ptr_local(7, None, 2) },
            Stmt::ExprStmt { expr: ret },
        ],
        trailing: None,
    };
    g.check_block(&blk);
    assert_eq!(g.diags, vec![Diagnostic { rule: RuleId::ReturnStackAddress, span: 4 }]);
}

#[test]
fn visited_block_is_not_double_reported() {
    let mut g = empty_group();
    let blk = Block {
        id: 100,
        span: 1,
        stmts: vec![Stmt::Decl { local: ptr_local(7, None, 2) }],
        trailing: Some(Box::new(expr(ExprKind::AddrOf { inner: Box::new(var(7, 3)) }, 4))),
    };
    g.check_block(&blk);
    g.check_block(&blk);
    assert_eq!(g.diags.len(), 1);
}

#[test]
fn resetting_the_memo_makes_a_rerun_yield_identical_diagnostics() {
    let mut g = empty_group();
    let blk = Block {
        id: 100,
        span: 1,
        stmts: vec![Stmt::Decl { local: ptr_local(7, None, 2) }],
        trailing: Some(Box::new(expr(ExprKind::AddrOf { inner: Box::new(var(7, 3)) }, 4))),
    };
    g.check_block(&blk);
    let first = g.diags.clone();
    g.visited_blocks = Vec::new();
    g.check_block(&blk);
    assert_eq!(g.diags.len(), 2 * first.len());
    assert_eq!(g.diags[first.len()..].to_vec(), first);
}

#[test]
fn nested_block_handled_by_enclosing_pass_is_skipped_later() {
    let mut g = empty_group();
    let inner = Block {
        id: 200,
        span: 10,
        stmts: vec![],
        trailing: Some(Box::new(expr(ExprKind::AddrOf { inner: Box::new(var(7, 11)) }, 12))),
    };
    let outer = Block {
        id: 100,
        span: 1,
        stmts: vec![Stmt::Decl { local: ptr_local(7, None, 2) }],
        trailing: Some(Box::new(expr(ExprKind::Blk { block: Box::new(inner) }, 13))),
    };
    g.check_block(&outer);
    assert_eq!(g.diags, vec![Diagnostic { rule: RuleId::ReturnStackAddress, span: 12 }]);
    let inner_again = Block {
        id: 200,
        span: 10,
        stmts: vec![],
        trailing: Some(Box::new(expr(ExprKind::AddrOf { inner: Box::new(var(7, 11)) }, 12))),
    };
    g.check_block(&inner_again);
    assert_eq!(g.diags.len(), 1);
}

#[test]
fn blocking_call_in_async_fn_is_flagged() {
    let mut g = empty_group();
    g.blocking_fns.ids.push(77);
    g.check_fn(&FnKind::ItemFn { is_async: true });
    g.check_expr(&call(plain_callee(77), vec![], 5));
    assert_eq!(g.diags, vec![Diagnostic { rule: RuleId::BlockingOpInAsync, span: 5 }]);
}

#[test]
fn blocking_call_in_sync_fn_is_not_flagged() {
    let mut g = empty_group();
    g.blocking_fns.ids.push(77);
    g.check_fn(&FnKind::ItemFn { is_async: false });
    g.check_expr(&call(plain_callee(77), vec![], 5));
    assert!(g.diags.is_empty());
}

#[test]
fn blocking_call_in_closure_inside_async_fn_is_flagged() {
    let mut g = empty_group();
    g.blocking_fns.ids.push(77);
    g.check_fn(&FnKind::ItemFn { is_async: true });
    g.check_fn(&FnKind::Closure);
    g.check_expr(&call(plain_callee(77), vec![], 5));
    assert_eq!(g.diags, vec![Diagnostic { rule: RuleId::BlockingOpInAsync, span: 5 }]);
}

#[test]
fn bare_literal_binding_is_flagged() {
    let mut g = empty_group();
    g.check_local(&LocalBinding {
        span: 9,
        var: 1,
        is_ptr: false,
        annotated: false,
        init: Some(expr(ExprKind::NumLit { num: 10, suffixed: false }, 8)),
    });
    assert_eq!(g.diags, vec![Diagnostic { rule: RuleId::UnconstrainedNumericLiteral, span: 9 }]);
}

#[test]
fn suffixed_literal_binding_is_not_flagged() {
    let mut g = empty_group();
    g.check_local(&LocalBinding {
        span: 9,
        var: 1,
        is_ptr: false,
        annotated: false,
        init: Some(expr(ExprKind::NumLit { num: 10, suffixed: true }, 8)),
    });
    assert!(g.diags.is_empty());
}

#[test]
fn annotated_literal_binding_is_not_flagged() {
    let mut g = empty_group();
    g.check_local(&LocalBinding {
        span: 9,
        var: 1,
        is_ptr: false,
        annotated: true,
        init: Some(expr(ExprKind::NumLit { num: 10, suffixed: false }, 8)),
    });
    assert!(g.diags.is_empty());
}

#[test]
fn end_to_end_mem_unsafe_call_through_default_namespace() {
    let memcpy_name: u64 = 5;
    let default_ns: u64 = 1;
    let memcpy_id: u64 = 500;
    let mut g = LintGroup::new(
        vec![pat(&[memcpy_name])],
        vec![],
        vec![],
        false,
        vec![],
        vec![],
        vec![],
        vec![],
    );
    let env = NameEnv {
        entries: vec![NameEntry { path: vec![default_ns, memcpy_name], id: memcpy_id }],
        default_ns,
        builtin_blocking: vec![],
    };
    g.check_crate(&env);
    g.check_expr(&call(
        Callee { id: Some(memcpy_id), name: memcpy_name, foreign: true, char_conversion: false },
        vec![],
        42,
    ));
    assert_eq!(g.diags, vec![Diagnostic { rule: RuleId::MemUnsafeFunctions, span: 42 }]);
    assert_eq!(
        g.diags[0].message(),
        "use of potentially dangerous memory manipulation function",
    );
    assert_eq!(g.diags[0].help(), Some("consider using its safe version"));
}

#[test]
fn bare_pattern_matches_local_foreign_declaration() {
    let name: u64 = 5;
    let local_id: u64 = 600;
    let mut g = LintGroup::new(
        vec![pat(&[name])],
        vec![],
        vec![],
        false,
        vec![],
        vec![],
        vec![],
        vec![],
    );
    let item = guidelines::tree::Item {
        span: 1,
        kind: guidelines::tree::ItemKind::ForeignMod {
            items: vec![guidelines::tree::ForeignItem {
                name,
                id: local_id,
                span: 2,
                kind: guidelines::tree::ForeignItemKind::Func { params: vec![] },
            }],
        },
    };
    g.check_item(&item);
    g.check_expr(&call(
        Callee { id: Some(local_id), name, foreign: true, char_conversion: false },
        vec![],
        7,
    ));
    assert_eq!(g.diags, vec![Diagnostic { rule: RuleId::MemUnsafeFunctions, span: 7 }]);
}

#[test]
fn fresh_function_body_resets_pointer_tracking() {
    let mut g = empty_group();
    g.check_fn(&FnKind::ItemFn { is_async: false });
    g.check_local(&ptr_local(1, Some(expr(ExprKind::NullLit, 2)), 1));
    g.check_fn(&FnKind::Method { is_async: false });
    g.check_expr(&deref(var(1, 3), 4));
    assert!(g.diags.is_empty());
}

#[test]
fn passing_a_null_pointer_to_a_call_makes_it_opaque() {
    let mut g = empty_group();
    g.check_local(&ptr_local(1, Some(expr(ExprKind::NullLit, 2)), 1));
    g.check_expr(&call(plain_callee(200), vec![var(1, 3)], 4));
    g.check_expr(&deref(var(1, 5), 6));
    assert!(g.diags.is_empty());
}

#[test]
fn passing_a_freed_pointer_to_a_call_suppresses_dangling_deref() {
    let mut g = empty_group();
    g.mem_free_fns.ids.push(50);
    g.check_local(&ptr_local(1, Some(expr(ExprKind::Other, 1)), 1));
    g.check_expr(&call(plain_callee(50), vec![var(1, 2)], 3));
    g.check_expr(&call(plain_callee(200), vec![var(1, 4)], 5));
    g.check_expr(&deref(var(1, 6), 7));
    assert!(g.diags.is_empty());
}

#[test]
fn passing_a_freed_pointer_to_a_call_suppresses_double_free() {
    let mut g = empty_group();
    g.mem_free_fns.ids.push(50);
    g.check_expr(&call(plain_callee(50), vec![var(1, 2)], 3));
    g.check_expr(&call(plain_callee(200), vec![var(1, 4)], 5));
    g.check_expr(&call(plain_callee(50), vec![var(1, 6)], 7));
    assert!(g.diags.is_empty());
}

use guidelines::diagnostics::{Diagnostic, RuleId};
use guidelines::tree::{
    Block, Callee, Expr, ExprKind, ForeignItem, ForeignItemKind, Item, ItemKind, LocalBinding,
    NameEntry, NameEnv, PathPattern, TypeRef,
};
use guidelines::LintGroup;

fn expr(kind: ExprKind, span: u64) -> Expr {
    Expr { span, kind }
}

fn var(v: u64, span: u64) -> Expr {
    expr(ExprKind::Var { var: v }, span)
}

fn named_callee(id: u64, name: u64) -> Callee {
    Callee { id: Some(id), name, foreign: false, char_conversion: false }
}

fn call(c: Callee, args: Vec<Expr>, span: u64) -> Expr {
    expr(ExprKind::Call { callee: c, args }, span)
}

fn local(v: u64, init: Option<Expr>, span: u64) -> LocalBinding {
    LocalBinding { span, var: v, is_ptr: false, annotated: true, init }
}

fn group() -> LintGroup {
    LintGroup::new(vec![], vec![], vec![], false, vec![], vec![], vec![], vec![])
}

#[test]
fn non_reentrant_call_is_flagged_with_help() {
    let mut g = group();
    g.non_reentrant_fns.ids.push(9);
    g.check_expr(&call(named_callee(9, 9), vec![], 3));
    assert_eq!(g.diags, vec![Diagnostic { rule: RuleId::NonReentrantFunctions, span: 3 }]);
    assert_eq!(g.diags[0].message(), "use of non-reentrant function");
    assert_eq!(g.diags[0].help(), Some("consider using its reentrant counterpart"));
}

#[test]
fn library_load_from_io_origin_is_flagged() {
    let mut g = group();
    g.io_fns.ids.push(30);
    g.lib_loading_fns.ids.push(40);
    g.check_local(&local(1, Some(call(named_callee(30, 30), vec![], 2)), 1));
    g.check_expr(&call(named_callee(40, 40), vec![var(1, 4)], 5));
    assert_eq!(g.diags, vec![Diagnostic { rule: RuleId::UntrustedLibLoading, span: 5 }]);
}

#[test]
fn library_load_traced_through_assignment_chain() {
    let mut g = group();
    g.io_fns.ids.push(30);
    g.lib_loading_fns.ids.push(40);
    g.check_local(&local(1, Some(call(named_callee(30, 30), vec![], 2)), 1));
    g.check_local(&local(2, Some(var(1, 3)), 3));
    g.check_expr(&call(named_callee(40, 40), vec![var(2, 4)], 5));
    assert_eq!(g.diags, vec![Diagnostic { rule: RuleId::UntrustedLibLoading, span: 5 }]);
}

#[test]
fn library_load_from_other_origin_is_not_flagged() {
    let mut g = group();
    g.io_fns.ids.push(30);
    g.lib_loading_fns.ids.push(40);
    g.check_local(&local(1, Some(call(named_callee(31, 31), vec![], 2)), 1));
    g.check_expr(&call(named_callee(40, 40), vec![var(1, 4)], 5));
    assert!(g.diags.is_empty());
}

#[test]
fn unchecked_allocation_size_is_flagged() {
    let mut g = group();
    g.mem_alloc_fns.ids.push(60);
    g.check_expr(&call(named_callee(60, 60), vec![var(1, 2)], 3));
    assert_eq!(g.diags, vec![Diagnostic { rule: RuleId::FallibleMemoryAllocation, span: 3 }]);
}

#[test]
fn inline_bound_check_before_allocation_suppresses_the_size_report() {
    let mut g = group();
    g.mem_alloc_fns.ids.push(60);
    g.check_expr(&expr(
        ExprKind::Cmp {
            lhs: Box::new(var(1, 1)),
            rhs: Box::new(expr(ExprKind::NumLit { num: 4096, suffixed: true }, 2)),
        },
        2,
    ));
    g.check_expr(&call(named_callee(60, 60), vec![var(1, 3)], 4));
    assert!(g.diags.is_empty());
}

#[test]
fn configured_helper_call_before_allocation_suppresses_the_size_report() {
    let helper_name: u64 = 70;
    let mut g = LintGroup::new(
        vec![],
        vec![],
        vec![],
        false,
        vec![helper_name],
        vec![],
        vec![],
        vec![],
    );
    g.mem_alloc_fns.ids.push(60);
    g.check_expr(&call(named_callee(71, helper_name), vec![var(1, 1)], 2));
    g.check_expr(&call(named_callee(60, 60), vec![var(1, 3)], 4));
    assert!(g.diags.is_empty());
}

#[test]
fn deref_of_unchecked_allocation_result_is_flagged() {
    let mut g = group();
    g.mem_alloc_fns.ids.push(60);
    g.check_local(&local(1, Some(call(named_callee(60, 60), vec![], 2)), 1));
    g.check_expr(&expr(ExprKind::Deref { inner: Box::new(var(1, 3)) }, 4));
    assert_eq!(g.diags, vec![Diagnostic { rule: RuleId::FallibleMemoryAllocation, span: 4 }]);
}

#[test]
fn null_check_before_deref_of_allocation_result_suppresses_the_report() {
    let mut g = group();
    g.mem_alloc_fns.ids.push(60);
    g.check_local(&local(1, Some(call(named_callee(60, 60), vec![], 2)), 1));
    g.check_expr(&expr(
        ExprKind::Cmp {
            lhs: Box::new(var(1, 3)),
            rhs: Box::new(expr(ExprKind::NullLit, 3)),
        },
        3,
    ));
    g.check_expr(&expr(ExprKind::Deref { inner: Box::new(var(1, 4)) }, 5));
    assert!(g.diags.is_empty());
}

#[test]
fn native_string_passed_to_foreign_function_is_flagged() {
    let mut g = group();
    let foreign = Callee { id: Some(80), name: 80, foreign: true, char_conversion: false };
    g.check_expr(&call(foreign, vec![expr(ExprKind::StrAsPtr, 2)], 3));
    assert_eq!(g.diags, vec![Diagnostic { rule: RuleId::PassingStringToCFunctions, span: 3 }]);
}

#[test]
fn native_string_to_non_foreign_function_is_not_flagged() {
    let mut g = group();
    g.check_expr(&call(named_callee(80, 80), vec![expr(ExprKind::StrAsPtr, 2)], 3));
    assert!(g.diags.is_empty());
}

#[test]
fn char_conversion_range_boundaries() {
    let conv = Callee { id: Some(90), name: 90, foreign: false, char_conversion: true };
    let cases: Vec<(u64, bool)> = vec![
        (0x61, false),
        (0xD7FF, false),
        (0xD800, true),
        (0xDE01, true),
        (0xDFFF, true),
        (0xE000, false),
        (0x10FFFF, false),
        (0x110000, true),
    ];
    for (value, flagged) in cases {
        let mut g = group();
        g.check_expr(&call(
            conv,
            vec![expr(ExprKind::NumLit { num: value, suffixed: false }, 1)],
            2,
        ));
        if flagged {
            assert_eq!(g.diags, vec![Diagnostic { rule: RuleId::InvalidCharRange, span: 2 }]);
        } else {
            assert!(g.diags.is_empty());
        }
    }
}

#[test]
fn unsafe_block_at_registered_macro_site_is_flagged() {
    let mut g = group();
    g.check_expr(&expr(ExprKind::MacroCall { site: 33 }, 1));
    let inner = Block { id: 1, span: 33, stmts: vec![], trailing: None };
    g.check_expr(&expr(ExprKind::UnsafeBlk { block: Box::new(inner) }, 33));
    assert_eq!(g.diags, vec![Diagnostic { rule: RuleId::UnsafeBlockInProcMacro, span: 33 }]);
}

#[test]
fn unsafe_block_outside_macro_sites_is_not_flagged() {
    let mut g = group();
    g.check_expr(&expr(ExprKind::MacroCall { site: 33 }, 1));
    let inner = Block { id: 1, span: 34, stmts: vec![], trailing: None };
    g.check_expr(&expr(ExprKind::UnsafeBlk { block: Box::new(inner) }, 34));
    assert!(g.diags.is_empty());
}

#[test]
fn foreign_struct_parameter_without_fixed_layout_is_flagged() {
    let mut g = group();
    let item = Item {
        span: 1,
        kind: ItemKind::ForeignMod {
            items: vec![ForeignItem {
                name: 5,
                id: 6,
                span: 7,
                kind: ForeignItemKind::Func {
                    params: vec![
                        TypeRef { is_struct: false, fixed_layout: false, span: 20 },
                        TypeRef { is_struct: true, fixed_layout: false, span: 21 },
                        TypeRef { is_struct: true, fixed_layout: true, span: 22 },
                    ],
                },
            }],
        },
    };
    g.check_item(&item);
    assert_eq!(g.diags, vec![Diagnostic { rule: RuleId::ExternWithoutRepr, span: 21 }]);
}

#[test]
fn foreign_static_without_fixed_layout_is_flagged() {
    let mut g = group();
    let item = Item {
        span: 1,
        kind: ItemKind::ForeignMod {
            items: vec![ForeignItem {
                name: 5,
                id: 6,
                span: 7,
                kind: ForeignItemKind::Static {
                    ty: TypeRef { is_struct: true, fixed_layout: false, span: 23 },
                },
            }],
        },
    };
    g.check_item(&item);
    assert_eq!(g.diags, vec![Diagnostic { rule: RuleId::ExternWithoutRepr, span: 23 }]);
}

#[test]
fn qualified_pattern_resolution_keeps_every_match() {
    let mut g = LintGroup::new(
        vec![PathPattern { segments: vec![10, 11] }],
        vec![],
        vec![],
        false,
        vec![],
        vec![],
        vec![],
        vec![],
    );
    let env = NameEnv {
        entries: vec![
            NameEntry { path: vec![10, 11], id: 101 },
            NameEntry { path: vec![10, 12], id: 102 },
            NameEntry { path: vec![10, 11], id: 103 },
        ],
        default_ns: 1,
        builtin_blocking: vec![],
    };
    g.check_crate(&env);
    assert_eq!(g.mem_uns_fns.ids, vec![101, 103]);
}

#[test]
fn pattern_matching_nothing_resolves_silently_to_nothing() {
    let mut g = LintGroup::new(
        vec![PathPattern { segments: vec![10, 11] }, PathPattern { segments: vec![] }],
        vec![],
        vec![],
        false,
        vec![],
        vec![],
        vec![],
        vec![],
    );
    let env = NameEnv { entries: vec![], default_ns: 1, builtin_blocking: vec![] };
    g.check_crate(&env);
    assert!(g.mem_uns_fns.ids.is_empty());
    assert!(g.diags.is_empty());
}

#[test]
fn denylist_holds_builtin_primitives_and_io_functions() {
    let mut g = LintGroup::new(
        vec![],
        vec![PathPattern { segments: vec![2] }],
        vec![],
        false,
        vec![],
        vec![],
        vec![],
        vec![],
    );
    let env = NameEnv {
        entries: vec![NameEntry { path: vec![1, 2], id: 20 }],
        default_ns: 1,
        builtin_blocking: vec![900, 901],
    };
    g.check_crate(&env);
    assert_eq!(g.blocking_fns.ids, vec![900, 901, 20]);
}

#[test]
fn allowing_io_blocking_keeps_io_functions_off_the_denylist() {
    let mut g = LintGroup::new(
        vec![],
        vec![PathPattern { segments: vec![2] }],
        vec![],
        true,
        vec![],
        vec![],
        vec![],
        vec![],
    );
    let env = NameEnv {
        entries: vec![NameEntry { path: vec![1, 2], id: 20 }],
        default_ns: 1,
        builtin_blocking: vec![900, 901],
    };
    g.check_crate(&env);
    assert_eq!(g.blocking_fns.ids, vec![900, 901]);
}

#[test]
fn peel_casts_reaches_the_innermost_expression() {
    let inner = var(3, 1);
    let cast = expr(
        ExprKind::Cast {
            inner: Box::new(expr(ExprKind::Cast { inner: Box::new(inner) }, 2)),
        },
        3,
    );
    let peeled = guidelines::peel_casts(&cast);
    assert!(matches!(peeled.kind, ExprKind::Var { var: 3 }));
    assert_eq!(peeled.span, 1);
}

#[test]
fn rules_without_help_render_none() {
    let d = Diagnostic { rule: RuleId::NullPtrDereference, span: 1 };
    assert_eq!(d.message(), "dereferencing a null pointer");
    assert_eq!(d.help(), None);
}

#[test]
fn validation_call_between_read_and_load_clears_the_trace() {
    let mut g = group();
    g.io_fns.ids.push(30);
    g.lib_loading_fns.ids.push(40);
    g.check_local(&local(1, Some(call(named_callee(30, 30), vec![], 2)), 1));
    g.check_expr(&call(named_callee(41, 41), vec![var(1, 3)], 4));
    g.check_expr(&call(named_callee(40, 40), vec![var(1, 5)], 6));
    assert!(g.diags.is_empty());
}

#[test]
fn passing_an_allocation_result_to_a_call_makes_it_opaque() {
    let mut g = group();
    g.mem_alloc_fns.ids.push(60);
    g.check_local(&local(1, Some(call(named_callee(60, 60), vec![], 2)), 1));
    g.check_expr(&call(named_callee(61, 61), vec![var(1, 3)], 4));
    g.check_expr(&expr(ExprKind::Deref { inner: Box::new(var(1, 5)) }, 6));
    assert!(g.diags.is_empty());
}

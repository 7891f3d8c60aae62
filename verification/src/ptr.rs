use vstd::prelude::*;

verus! {

use crate::diagnostics::{diag, Diagnostic, RuleId};
use crate::tree::{spec_peel, Expr, ExprKind};

/// Where the value of a pointer binding last came from.
#[derive(Clone, Copy, PartialEq, Eq, Debug)]
pub enum PtrOrigin {
    /// Declared without an initializer.
    Uninitialized,
    /// Initialized or assigned from a null-pointer constant.
    NullLiteral,
    /// Initialized or assigned from anything else.
    AssignedNonNull,
}

/// The tracked state of one local variable inside the current function
/// body. `origin` and `freed` are the pointer-lifecycle state proper;
/// `from_call` records the callee a value was directly traced from (for the
/// untrusted-library-loading chain), and `is_alloc`, `null_checked` and
/// `size_checked` serve the fallible-allocation rule.
#[derive(Clone, Copy, PartialEq, Eq, Debug)]
pub struct VarState {
    pub var: u64,
    pub origin: PtrOrigin,
    pub freed: bool,
    pub from_call: Option<u64>,
    pub is_alloc: bool,
    pub null_checked: bool,
    pub size_checked: bool,
}

/// The state assumed of a variable the pass has recorded nothing about:
/// its origin is unknowable, so every rule abstains on it.
pub open spec fn spec_default_state(v: u64) -> VarState {
    VarState {
        var: v,
        origin: PtrOrigin::AssignedNonNull,
        freed: false,
        from_call: None,
        is_alloc: false,
        null_checked: false,
        size_checked: false,
    }
}

/// The current state of variable `v`: the last recorded entry wins, and an
/// unrecorded variable has the default state.
pub open spec fn spec_var_state(locals: Seq<VarState>, v: u64) -> VarState
    decreases locals.len(),
{
    if locals.len() == 0 {
        spec_default_state(v)
    } else if locals.last().var == v {
        locals.last()
    } else {
        spec_var_state(locals.drop_last(), v)
    }
}

/// Looks up the current state of `v` in the per-body store.
pub fn var_state_of(locals: &Vec<VarState>, v: u64) -> (st: VarState)
    ensures
        st == spec_var_state(locals@, v),
{
    let mut i: usize = locals.len();
    proof {
        assert(locals@.take(locals@.len() as int) =~= locals@);
    }
    while i > 0
        invariant
            i <= locals@.len(),
            spec_var_state(locals@, v) == spec_var_state(locals@.take(i as int), v),
        decreases i,
    {
        i = i - 1;
        proof {
            assert(locals@.take(i as int + 1).drop_last() =~= locals@.take(i as int));
            assert(locals@.take(i as int + 1).last() == locals@[i as int]);
        }
        if locals[i].var == v {
            return locals[i];
        }
    }
    proof {
        assert(locals@.take(0) =~= Seq::<VarState>::empty());
    }
    default_state(v)
}

/// The state recorded for a variable bound to the (already peeled) value
/// `p`. A null-pointer constant sets the origin to `NullLiteral` only for a
/// pointer-typed binding; any binding resets `freed`. The value's source
/// call, if it is directly a call or a variable already traced to one, is
/// kept for the data-flow chain.
pub open spec fn spec_bound_state(
    alloc_ids: Seq<u64>,
    locals: Seq<VarState>,
    var: u64,
    is_ptr: bool,
    p: Expr,
) -> VarState {
    VarState {
        var,
        origin: if is_ptr && p.kind is NullLit {
            PtrOrigin::NullLiteral
        } else {
            PtrOrigin::AssignedNonNull
        },
        freed: false,
        from_call: match p.kind {
            ExprKind::Call { callee, .. } => callee.id,
            ExprKind::Var { var: w } => spec_var_state(locals, w).from_call,
            _ => None,
        },
        is_alloc: match p.kind {
            ExprKind::Call { callee, .. } => match callee.id {
                Some(f) => alloc_ids.contains(f),
                None => false,
            },
            _ => false,
        },
        null_checked: false,
        size_checked: false,
    }
}

/// Computes the state for a binding of `var` to the value `value`.
pub fn bound_state(
    alloc_ids: &Vec<u64>,
    locals: &Vec<VarState>,
    var: u64,
    is_ptr: bool,
    value: &Expr,
) -> (st: VarState)
    ensures
        st == spec_bound_state(alloc_ids@, locals@, var, is_ptr, spec_peel(*value)),
{
    let p = crate::peel_casts(value);
    let is_null = matches!(p.kind, ExprKind::NullLit);
    let from_call: Option<u64> = match &p.kind {
        ExprKind::Call { callee, .. } => callee.id,
        ExprKind::Var { var: w } => var_state_of(locals, *w).from_call,
        _ => None,
    };
    let is_alloc: bool = match &p.kind {
        ExprKind::Call { callee, .. } => match callee.id {
            Some(f) => crate::tree::contains_atom(alloc_ids, f),
            None => false,
        },
        _ => false,
    };
    VarState {
        var,
        origin: if is_ptr && is_null {
            PtrOrigin::NullLiteral
        } else {
            PtrOrigin::AssignedNonNull
        },
        freed: false,
        from_call,
        is_alloc,
        null_checked: false,
        size_checked: false,
    }
}

/// The diagnostics of a dereference of variable `v`: a null-pointer
/// dereference while the origin is still a null literal, and a dangling
/// dereference while the binding is freed. Any intervening assignment
/// rewrites the recorded state, and passing the variable into another
/// function makes it opaque, so either suppresses the report.
pub open spec fn spec_deref_diags(locals: Seq<VarState>, v: u64, span: u64) -> Seq<Diagnostic> {
    let st = spec_var_state(locals, v);
    (if st.origin is NullLiteral {
        seq![diag(RuleId::NullPtrDereference, span)]
    } else {
        Seq::empty()
    }) + (if st.freed {
        seq![diag(RuleId::DanglingPtrDereference, span)]
    } else {
        Seq::empty()
    })
}

/// Emits the pointer-lifecycle diagnostics of a dereference of `v`.
pub fn check_deref(out: &mut Vec<Diagnostic>, locals: &Vec<VarState>, v: u64, span: u64)
    ensures
        final(out)@ == old(out)@ + spec_deref_diags(locals@, v, span),
{
    let st = var_state_of(locals, v);
    if matches!(st.origin, PtrOrigin::NullLiteral) {
        crate::diagnostics::emit(out, RuleId::NullPtrDereference, span);
    }
    if st.freed {
        crate::diagnostics::emit(out, RuleId::DanglingPtrDereference, span);
    }
    proof {
        assert(final(out)@ =~= old(out)@ + spec_deref_diags(locals@, v, span));
    }
}

/// The diagnostic of a matched free-category call: exactly one double-free
/// report when the sole traced argument is a variable already freed.
#[verifier::opaque]
pub open spec fn spec_free_diags(locals: Seq<VarState>, args: Seq<Expr>, span: u64) -> Seq<
    Diagnostic,
> {
    if args.len() == 1 && spec_peel(args[0]).kind is Var {
        let v = spec_peel(args[0]).kind->Var_var;
        if spec_var_state(locals, v).freed {
            seq![diag(RuleId::PtrDoubleFree, span)]
        } else {
            Seq::empty()
        }
    } else {
        Seq::empty()
    }
}

/// The store after a matched free-category call: the sole traced argument,
/// if it is a variable, is recorded as freed; everything else is kept.
#[verifier::opaque]
pub open spec fn spec_after_free(locals: Seq<VarState>, args: Seq<Expr>) -> Seq<VarState> {
    if args.len() == 1 && spec_peel(args[0]).kind is Var {
        let v = spec_peel(args[0]).kind->Var_var;
        let st = spec_var_state(locals, v);
        locals.push(
            VarState {
                var: v,
                origin: st.origin,
                freed: true,
                from_call: st.from_call,
                is_alloc: st.is_alloc,
                null_checked: st.null_checked,
                size_checked: st.size_checked,
            },
        )
    } else {
        locals
    }
}

/// Handles a call to a free-category function: reports a double free of an
/// already-freed binding, then marks the binding freed.
pub fn check_free_call(
    out: &mut Vec<Diagnostic>,
    locals: &mut Vec<VarState>,
    args: &Vec<Expr>,
    span: u64,
)
    ensures
        final(out)@ == old(out)@ + spec_free_diags(old(locals)@, args@, span),
        final(locals)@ == spec_after_free(old(locals)@, args@),
{
    proof {
        reveal(spec_free_diags);
        reveal(spec_after_free);
    }
    if args.len() == 1 {
        let p = crate::peel_casts(&args[0]);
        if let ExprKind::Var { var } = &p.kind {
            let st = var_state_of(locals, *var);
            if st.freed {
                crate::diagnostics::emit(out, RuleId::PtrDoubleFree, span);
            }
            locals.push(
                VarState {
                    var: *var,
                    origin: st.origin,
                    freed: true,
                    from_call: st.from_call,
                    is_alloc: st.is_alloc,
                    null_checked: st.null_checked,
                    size_checked: st.size_checked,
                },
            );
        }
    }
    proof {
        assert(final(out)@ =~= old(out)@ + spec_free_diags(old(locals)@, args@, span));
    }
}

/// The state recorded for a local binding declaration: without an
/// initializer a pointer-typed binding starts uninitialized; with one, the
/// initializer's peeled value decides the state.
pub open spec fn spec_decl_state(
    alloc_ids: Seq<u64>,
    locals: Seq<VarState>,
    l: crate::tree::LocalBinding,
) -> VarState {
    match l.init {
        None => VarState {
            var: l.var,
            origin: if l.is_ptr {
                PtrOrigin::Uninitialized
            } else {
                PtrOrigin::AssignedNonNull
            },
            freed: false,
            from_call: None,
            is_alloc: false,
            null_checked: false,
            size_checked: false,
        },
        Some(e) => spec_bound_state(alloc_ids, locals, l.var, l.is_ptr, spec_peel(e)),
    }
}

/// Computes the state a local binding declaration records.
pub fn decl_state(
    alloc_ids: &Vec<u64>,
    locals: &Vec<VarState>,
    l: &crate::tree::LocalBinding,
) -> (st: VarState)
    ensures
        st == spec_decl_state(alloc_ids@, locals@, *l),
{
    match &l.init {
        None => VarState {
            var: l.var,
            origin: if l.is_ptr {
                PtrOrigin::Uninitialized
            } else {
                PtrOrigin::AssignedNonNull
            },
            freed: false,
            from_call: None,
            is_alloc: false,
            null_checked: false,
            size_checked: false,
        },
        Some(e) => bound_state(alloc_ids, locals, l.var, l.is_ptr, e),
    }
}

/// The default state of `v`: what the pass assumes of a variable it has
/// recorded nothing about, and what it records once tracking stops at a
/// call boundary.
pub fn default_state(v: u64) -> (st: VarState)
    ensures
        st == spec_default_state(v),
{
    VarState {
        var: v,
        origin: PtrOrigin::AssignedNonNull,
        freed: false,
        from_call: None,
        is_alloc: false,
        null_checked: false,
        size_checked: false,
    }
}

/// The store after a variable is passed into another function: tracking
/// stops at the call boundary, so every argument that peels to a variable
/// has its recorded state replaced by the opaque default, and the later
/// dereference, free and data-flow rules abstain on it.
pub open spec fn spec_after_opaque_args(locals: Seq<VarState>, args: Seq<Expr>) -> Seq<VarState>
    decreases args.len(),
{
    if args.len() == 0 {
        locals
    } else {
        let l1 = spec_after_opaque_args(locals, args.drop_last());
        if spec_peel(args.last()).kind is Var {
            l1.push(spec_default_state(spec_peel(args.last()).kind->Var_var))
        } else {
            l1
        }
    }
}

/// Marks every variable argument of a call opaque: the pointer passed into
/// another function is treated as opaque thereafter.
pub fn make_args_opaque(locals: &mut Vec<VarState>, args: &Vec<Expr>)
    ensures
        final(locals)@ == spec_after_opaque_args(old(locals)@, args@),
{
    let mut i: usize = 0;
    while i < args.len()
        invariant
            i <= args@.len(),
            locals@ == spec_after_opaque_args(old(locals)@, args@.take(i as int)),
        decreases args@.len() - i,
    {
        proof {
            assert(args@.take(i as int + 1).drop_last() =~= args@.take(i as int));
            assert(args@.take(i as int + 1).last() == args@[i as int]);
        }
        let p = crate::peel_casts(&args[i]);
        if let ExprKind::Var { var } = &p.kind {
            locals.push(default_state(*var));
        }
        i = i + 1;
    }
    proof {
        assert(args@.take(args@.len() as int) =~= args@);
    }
}

/// The store after a size-bound check of `v` is observed: the variable
/// counts as size-checked from here on.
#[verifier::opaque]
pub open spec fn spec_mark_size_checked(locals: Seq<VarState>, v: u64) -> Seq<VarState> {
    let st = spec_var_state(locals, v);
    locals.push(
        VarState {
            var: v,
            origin: st.origin,
            freed: st.freed,
            from_call: st.from_call,
            is_alloc: st.is_alloc,
            null_checked: st.null_checked,
            size_checked: true,
        },
    )
}

/// Records that the size of `v` was checked.
pub fn mark_size_checked(locals: &mut Vec<VarState>, v: u64)
    ensures
        final(locals)@ == spec_mark_size_checked(old(locals)@, v),
{
    proof {
        reveal(spec_mark_size_checked);
    }
    let st = var_state_of(locals, v);
    locals.push(
        VarState {
            var: v,
            origin: st.origin,
            freed: st.freed,
            from_call: st.from_call,
            is_alloc: st.is_alloc,
            null_checked: st.null_checked,
            size_checked: true,
        },
    );
}

/// The store after recording that `v` took part in a comparison: the
/// variable counts as size-checked, and as null-checked when the other
/// operand is a null-pointer constant.
pub open spec fn spec_cmp_side(locals: Seq<VarState>, side: Expr, other: Expr) -> Seq<VarState> {
    if side.kind is Var {
        let v = side.kind->Var_var;
        let st = spec_var_state(locals, v);
        locals.push(
            VarState {
                var: v,
                origin: st.origin,
                freed: st.freed,
                from_call: st.from_call,
                is_alloc: st.is_alloc,
                null_checked: st.null_checked || other.kind is NullLit,
                size_checked: true,
            },
        )
    } else {
        locals
    }
}

/// The store after a comparison expression: both operands are peeled and
/// each variable operand is marked, the left one first.
pub open spec fn spec_after_cmp(locals: Seq<VarState>, lhs: Expr, rhs: Expr) -> Seq<VarState> {
    let l1 = spec_cmp_side(locals, spec_peel(lhs), spec_peel(rhs));
    spec_cmp_side(l1, spec_peel(rhs), spec_peel(lhs))
}

/// Records what a comparison expression says about its variable operands.
pub fn check_cmp(locals: &mut Vec<VarState>, lhs: &Expr, rhs: &Expr)
    ensures
        final(locals)@ == spec_after_cmp(old(locals)@, *lhs, *rhs),
{
    let pl = crate::peel_casts(lhs);
    let pr = crate::peel_casts(rhs);
    if let ExprKind::Var { var } = &pl.kind {
        let st = var_state_of(locals, *var);
        locals.push(
            VarState {
                var: *var,
                origin: st.origin,
                freed: st.freed,
                from_call: st.from_call,
                is_alloc: st.is_alloc,
                null_checked: st.null_checked || matches!(pr.kind, ExprKind::NullLit),
                size_checked: true,
            },
        );
    }
    if let ExprKind::Var { var } = &pr.kind {
        let st = var_state_of(locals, *var);
        locals.push(
            VarState {
                var: *var,
                origin: st.origin,
                freed: st.freed,
                from_call: st.from_call,
                is_alloc: st.is_alloc,
                null_checked: st.null_checked || matches!(pl.kind, ExprKind::NullLit),
                size_checked: true,
            },
        );
    }
}

} // verus!

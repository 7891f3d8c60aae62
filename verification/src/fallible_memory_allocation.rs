use vstd::prelude::*;

verus! {

use crate::diagnostics::{diag, Diagnostic, RuleId};
use crate::ptr::{spec_var_state, VarState};
use crate::tree::{spec_peel, Expr, ExprKind};

/// The diagnostic of a call to an allocation function: one report when the
/// size argument is a variable with no preceding size-bound comparison —
/// neither against a configured size-check helper nor inline. The check
/// abstains when the argument's origin cannot be evaluated.
#[verifier::opaque]
pub open spec fn spec_check_size(
    locals: Seq<VarState>,
    args: Seq<Expr>,
    span: u64,
) -> Seq<Diagnostic> {
    if args.len() > 0 && spec_peel(args[0]).kind is Var && !spec_var_state(
        locals,
        spec_peel(args[0]).kind->Var_var,
    ).size_checked {
        seq![diag(RuleId::FallibleMemoryAllocation, span)]
    } else {
        Seq::empty()
    }
}

/// Flags an allocation whose size argument was never bounds-checked.
pub fn check_size(
    out: &mut Vec<Diagnostic>,
    locals: &Vec<VarState>,
    args: &Vec<Expr>,
    span: u64,
)
    ensures
        final(out)@ == old(out)@ + spec_check_size(locals@, args@, span),
{
    proof {
        reveal(spec_check_size);
    }
    if args.len() > 0 {
        let p = crate::peel_casts(&args[0]);
        if let ExprKind::Var { var } = &p.kind {
            let st = crate::ptr::var_state_of(locals, *var);
            if !st.size_checked {
                crate::diagnostics::emit(out, RuleId::FallibleMemoryAllocation, span);
            }
        }
    }
    proof {
        assert(final(out)@ =~= old(out)@ + spec_check_size(locals@, args@, span));
    }
}

/// The diagnostic of a dereference of `v`: one report when `v` holds the
/// result of an allocation call and no null-result check was recorded
/// between the allocation and the dereference.
#[verifier::opaque]
pub open spec fn spec_check_deref(locals: Seq<VarState>, v: u64, span: u64) -> Seq<Diagnostic> {
    let st = spec_var_state(locals, v);
    if st.is_alloc && !st.null_checked {
        seq![diag(RuleId::FallibleMemoryAllocation, span)]
    } else {
        Seq::empty()
    }
}

/// Flags a dereference of an allocation result that was never null-checked.
pub fn check_deref(out: &mut Vec<Diagnostic>, locals: &Vec<VarState>, v: u64, span: u64)
    ensures
        final(out)@ == old(out)@ + spec_check_deref(locals@, v, span),
{
    proof {
        reveal(spec_check_deref);
    }
    let st = crate::ptr::var_state_of(locals, v);
    if st.is_alloc && !st.null_checked {
        crate::diagnostics::emit(out, RuleId::FallibleMemoryAllocation, span);
    }
    proof {
        assert(final(out)@ =~= old(out)@ + spec_check_deref(locals@, v, span));
    }
}

} // verus!

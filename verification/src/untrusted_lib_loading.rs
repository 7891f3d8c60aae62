use vstd::prelude::*;

verus! {

use crate::diagnostics::{diag, Diagnostic, RuleId};
use crate::ptr::{spec_var_state, VarState};
use crate::tree::{spec_peel, Expr, ExprKind};

/// The diagnostic of a call to a library-loading function: one report when
/// the path argument is a variable whose value was traced, through direct
/// local-variable assignment chains inside the same function body, to a
/// call of a configured IO function. The trace never crosses a function
/// boundary, and the check abstains on any other origin.
#[verifier::opaque]
pub open spec fn spec_check(
    io_ids: Seq<u64>,
    locals: Seq<VarState>,
    args: Seq<Expr>,
    span: u64,
) -> Seq<Diagnostic> {
    if args.len() > 0 && spec_peel(args[0]).kind is Var && (match spec_var_state(
        locals,
        spec_peel(args[0]).kind->Var_var,
    ).from_call {
        Some(f) => io_ids.contains(f),
        None => false,
    }) {
        seq![diag(RuleId::UntrustedLibLoading, span)]
    } else {
        Seq::empty()
    }
}

/// Flags a library load whose path originates from a configured IO call.
pub fn check_expr(
    out: &mut Vec<Diagnostic>,
    io_ids: &Vec<u64>,
    locals: &Vec<VarState>,
    args: &Vec<Expr>,
    span: u64,
)
    ensures
        final(out)@ == old(out)@ + spec_check(io_ids@, locals@, args@, span),
{
    proof {
        reveal(spec_check);
    }
    if args.len() > 0 {
        let p = crate::peel_casts(&args[0]);
        if let ExprKind::Var { var } = &p.kind {
            let st = crate::ptr::var_state_of(locals, *var);
            if let Some(f) = st.from_call {
                if crate::tree::contains_atom(io_ids, f) {
                    crate::diagnostics::emit(out, RuleId::UntrustedLibLoading, span);
                }
            }
        }
    }
    proof {
        assert(final(out)@ =~= old(out)@ + spec_check(io_ids@, locals@, args@, span));
    }
}

} // verus!

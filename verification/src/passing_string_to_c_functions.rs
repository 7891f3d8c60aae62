use vstd::prelude::*;

verus! {

use crate::diagnostics::{diag, Diagnostic, RuleId};
use crate::tree::{spec_peel, Callee, Expr, ExprKind};

/// The diagnostic of a call: one report when the callee is a
/// foreign-declared function and some argument peels to a raw-pointer
/// extraction from a native text value (a wide Rust string pointer handed
/// across the foreign boundary without a null-terminated conversion).
#[verifier::opaque]
pub open spec fn spec_check(callee: Callee, args: Seq<Expr>, span: u64) -> Seq<Diagnostic> {
    if callee.foreign && (exists|i: int|
        0 <= i < args.len() && spec_peel(#[trigger] args[i]).kind is StrAsPtr) {
        seq![diag(RuleId::PassingStringToCFunctions, span)]
    } else {
        Seq::empty()
    }
}

/// Flags a native string passed to a foreign function by raw pointer.
pub fn check_expr(out: &mut Vec<Diagnostic>, callee: &Callee, args: &Vec<Expr>, span: u64)
    ensures
        final(out)@ == old(out)@ + spec_check(*callee, args@, span),
{
    proof {
        reveal(spec_check);
    }
    if callee.foreign {
        let mut found = false;
        let mut i: usize = 0;
        while i < args.len()
            invariant
                i <= args@.len(),
                found <==> (exists|k: int|
                    0 <= k < i && spec_peel(#[trigger] args@[k]).kind is StrAsPtr),
            decreases args@.len() - i,
        {
            let p = crate::peel_casts(&args[i]);
            if matches!(p.kind, ExprKind::StrAsPtr) {
                found = true;
                proof {
                    assert(spec_peel(args@[i as int]).kind is StrAsPtr);
                }
            }
            i = i + 1;
        }
        if found {
            crate::diagnostics::emit(out, RuleId::PassingStringToCFunctions, span);
        }
    }
    proof {
        assert(final(out)@ =~= old(out)@ + spec_check(*callee, args@, span));
    }
}

} // verus!

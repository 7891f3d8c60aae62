use vstd::prelude::*;

verus! {

use crate::diagnostics::{diag, Diagnostic, RuleId};
use crate::tree::{ExprKind, LocalBinding};

/// The diagnostic of a local binding: one report when the binding is
/// initialized directly by a bare numeric literal (no type suffix) and
/// carries no explicit type annotation; nothing otherwise.
pub open spec fn spec_check(l: LocalBinding) -> Seq<Diagnostic> {
    match l.init {
        Some(e) => if !l.annotated && e.kind matches ExprKind::NumLit { suffixed: false, .. } {
            seq![diag(RuleId::UnconstrainedNumericLiteral, l.span)]
        } else {
            Seq::empty()
        },
        None => Seq::empty(),
    }
}

/// Flags a local binding initialized by an unconstrained numeric literal.
pub fn check_local(out: &mut Vec<Diagnostic>, l: &LocalBinding)
    ensures
        final(out)@ == old(out)@ + spec_check(*l),
{
    if let Some(e) = &l.init {
        if let ExprKind::NumLit { suffixed: false, .. } = &e.kind {
            if !l.annotated {
                crate::diagnostics::emit(out, RuleId::UnconstrainedNumericLiteral, l.span);
            }
        }
    }
    proof {
        assert(final(out)@ =~= old(out)@ + spec_check(*l));
    }
}

} // verus!

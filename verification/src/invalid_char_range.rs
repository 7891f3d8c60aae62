use vstd::prelude::*;

verus! {

use crate::diagnostics::{diag, Diagnostic, RuleId};
use crate::tree::{spec_peel, Callee, Expr, ExprKind};

/// Whether `v` is a valid character codepoint: inside the codepoint range
/// and outside the surrogate range.
pub open spec fn spec_valid_codepoint(v: u64) -> bool {
    v < 0xD800 || (0xE000 <= v && v <= 0x10FFFF)
}

/// The diagnostic of a call: one report when the callee is the
/// numeric-to-character conversion and its input peels to a constant that
/// is provably outside the valid codepoint range; the check abstains on any
/// input that is not constant-foldable.
#[verifier::opaque]
pub open spec fn spec_check(callee: Callee, args: Seq<Expr>, span: u64) -> Seq<Diagnostic> {
    if callee.char_conversion && args.len() > 0 && (spec_peel(
        args[0],
    ).kind matches ExprKind::NumLit { num, .. }) && !spec_valid_codepoint(
        spec_peel(args[0]).kind->NumLit_num,
    ) {
        seq![diag(RuleId::InvalidCharRange, span)]
    } else {
        Seq::empty()
    }
}

/// Flags a constant-foldable numeric-to-character conversion whose input
/// lies outside the valid codepoint range.
pub fn check_call(out: &mut Vec<Diagnostic>, callee: &Callee, args: &Vec<Expr>, span: u64)
    ensures
        final(out)@ == old(out)@ + spec_check(*callee, args@, span),
{
    proof {
        reveal(spec_check);
    }
    if callee.char_conversion && args.len() > 0 {
        let p = crate::peel_casts(&args[0]);
        if let ExprKind::NumLit { num, .. } = &p.kind {
            let n = *num;
            if !(n < 0xD800 || (0xE000 <= n && n <= 0x10FFFF)) {
                crate::diagnostics::emit(out, RuleId::InvalidCharRange, span);
            }
        }
    }
    proof {
        assert(final(out)@ =~= old(out)@ + spec_check(*callee, args@, span));
    }
}

} // verus!

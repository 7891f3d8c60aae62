use vstd::prelude::*;

verus! {

use crate::diagnostics::{diag, Diagnostic, RuleId};

/// The diagnostic of an unsafe-marked block: one report when its source
/// location lies within the macro-call-site registry, that is, the block
/// was introduced by a macro expansion the invoking user cannot audit.
pub open spec fn spec_check_unsafe(sites: Seq<u64>, span: u64) -> Seq<Diagnostic> {
    if sites.contains(span) {
        seq![diag(RuleId::UnsafeBlockInProcMacro, span)]
    } else {
        Seq::empty()
    }
}

/// Flags an unsafe block that lies at a registered macro call site.
pub fn check_unsafe(out: &mut Vec<Diagnostic>, sites: &Vec<u64>, span: u64)
    ensures
        final(out)@ == old(out)@ + spec_check_unsafe(sites@, span),
{
    if crate::tree::contains_atom(sites, span) {
        crate::diagnostics::emit(out, RuleId::UnsafeBlockInProcMacro, span);
    }
    proof {
        assert(final(out)@ =~= old(out)@ + spec_check_unsafe(sites@, span));
    }
}

/// The registry after a macro invocation is visited: its call site is
/// appended, and the registry only ever grows within one unit's pass.
pub open spec fn spec_register_site(sites: Seq<u64>, site: u64) -> Seq<u64> {
    sites.push(site)
}

/// Records the call site of a macro invocation in the registry.
pub fn register_site(sites: &mut Vec<u64>, site: u64)
    ensures
        final(sites)@ == spec_register_site(old(sites)@, site),
{
    sites.push(site);
}

} // verus!

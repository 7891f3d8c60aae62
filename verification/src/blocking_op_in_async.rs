use vstd::prelude::*;

verus! {

use crate::diagnostics::{diag, Diagnostic, RuleId};

/// The async-blocking denylist seeded at the unit root: the fixed built-in
/// blocking primitives always, plus the resolved identifiers of the
/// configured IO functions unless IO blocking operations are explicitly
/// allowed.
pub open spec fn spec_denylist(builtin: Seq<u64>, io_ids: Seq<u64>, allow_io: bool) -> Seq<u64> {
    builtin + (if allow_io {
        Seq::empty()
    } else {
        io_ids
    })
}

/// Builds the async-blocking denylist.
pub fn init_denylist(builtin: &Vec<u64>, io_ids: &Vec<u64>, allow_io: bool) -> (r: Vec<u64>)
    ensures
        r@ == spec_denylist(builtin@, io_ids@, allow_io),
{
    let mut r: Vec<u64> = Vec::new();
    let mut i: usize = 0;
    while i < builtin.len()
        invariant
            i <= builtin@.len(),
            r@ == builtin@.take(i as int),
        decreases builtin@.len() - i,
    {
        r.push(builtin[i]);
        proof {
            assert(builtin@.take(i as int + 1) =~= builtin@.take(i as int).push(
                builtin@[i as int],
            ));
        }
        i = i + 1;
    }
    proof {
        assert(builtin@.take(builtin@.len() as int) =~= builtin@);
    }
    if !allow_io {
        let mut j: usize = 0;
        while j < io_ids.len()
            invariant
                j <= io_ids@.len(),
                r@ == builtin@ + io_ids@.take(j as int),
            decreases io_ids@.len() - j,
        {
            r.push(io_ids[j]);
            proof {
                assert(builtin@ + io_ids@.take(j as int + 1) =~= (builtin@ + io_ids@.take(
                    j as int,
                )).push(io_ids@[j as int]));
            }
            j = j + 1;
        }
        proof {
            assert(io_ids@.take(io_ids@.len() as int) =~= io_ids@);
        }
    } else {
        proof {
            assert(builtin@ + Seq::<u64>::empty() =~= builtin@);
        }
    }
    r
}

/// The diagnostic of a call whose lexically nearest enclosing function
/// declaration is asynchronous: one report when the callee is denylisted.
/// Closures do not form the enclosing boundary, so a call inside a closure
/// nested in an async function still reports.
#[verifier::opaque]
pub open spec fn spec_check_call(
    in_async: bool,
    blocking_ids: Seq<u64>,
    fid: u64,
    span: u64,
) -> Seq<Diagnostic> {
    if in_async && blocking_ids.contains(fid) {
        seq![diag(RuleId::BlockingOpInAsync, span)]
    } else {
        Seq::empty()
    }
}

/// Flags a denylisted call made inside an async function.
pub fn check_call(
    out: &mut Vec<Diagnostic>,
    in_async: bool,
    blocking_ids: &Vec<u64>,
    fid: u64,
    span: u64,
)
    ensures
        final(out)@ == old(out)@ + spec_check_call(in_async, blocking_ids@, fid, span),
{
    proof {
        reveal(spec_check_call);
    }
    if in_async && crate::tree::contains_atom(blocking_ids, fid) {
        crate::diagnostics::emit(out, RuleId::BlockingOpInAsync, span);
    }
    proof {
        assert(final(out)@ =~= old(out)@ + spec_check_call(in_async, blocking_ids@, fid, span));
    }
}

} // verus!

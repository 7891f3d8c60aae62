use vstd::prelude::*;

verus! {

use crate::diagnostics::{diag, Diagnostic, RuleId};
use crate::tree::{ForeignItem, ForeignItemKind, TypeRef};

/// The diagnostic of one type mention in a foreign-interface declaration:
/// one report when it is a data-structure type without an explicit fixed
/// cross-language memory-layout annotation.
pub open spec fn spec_typeref_diags(t: TypeRef) -> Seq<Diagnostic> {
    if t.is_struct && !t.fixed_layout {
        seq![diag(RuleId::ExternWithoutRepr, t.span)]
    } else {
        Seq::empty()
    }
}

/// The diagnostics of a parameter list, in declaration order.
pub open spec fn spec_params_diags(params: Seq<TypeRef>) -> Seq<Diagnostic>
    decreases params.len(),
{
    if params.len() == 0 {
        Seq::empty()
    } else {
        spec_params_diags(params.drop_last()) + spec_typeref_diags(params.last())
    }
}

/// The foreign-layout diagnostics of one foreign-interface declaration:
/// every parameter type of an external function, and the type of every
/// non-function declaration, is examined.
pub open spec fn spec_item_diags(item: ForeignItem) -> Seq<Diagnostic> {
    match item.kind {
        ForeignItemKind::Func { params } => spec_params_diags(params@),
        ForeignItemKind::Static { ty } => spec_typeref_diags(ty),
    }
}

/// The foreign-layout diagnostics of a whole foreign-interface block.
pub open spec fn spec_items_diags(items: Seq<ForeignItem>) -> Seq<Diagnostic>
    decreases items.len(),
{
    if items.len() == 0 {
        Seq::empty()
    } else {
        spec_items_diags(items.drop_last()) + spec_item_diags(items.last())
    }
}

/// Flags one type mention that lacks a fixed layout.
fn check_typeref(out: &mut Vec<Diagnostic>, t: &TypeRef)
    ensures
        final(out)@ == old(out)@ + spec_typeref_diags(*t),
{
    if t.is_struct && !t.fixed_layout {
        crate::diagnostics::emit(out, RuleId::ExternWithoutRepr, t.span);
    }
    proof {
        assert(final(out)@ =~= old(out)@ + spec_typeref_diags(*t));
    }
}

/// Runs the foreign-layout checker over one foreign-interface block.
pub fn check_items(out: &mut Vec<Diagnostic>, items: &Vec<ForeignItem>)
    ensures
        final(out)@ == old(out)@ + spec_items_diags(items@),
{
    let mut i: usize = 0;
    while i < items.len()
        invariant
            i <= items@.len(),
            out@ == old(out)@ + spec_items_diags(items@.take(i as int)),
        decreases items@.len() - i,
    {
        match &items[i].kind {
            ForeignItemKind::Func { params } => {
                let mut j: usize = 0;
                while j < params.len()
                    invariant
                        j <= params@.len(),
                        out@ == old(out)@ + spec_items_diags(items@.take(i as int))
                            + spec_params_diags(params@.take(j as int)),
                        i < items@.len(),
                        items@[i as int].kind matches ForeignItemKind::Func { params: ps }
                            && ps@ == params@,
                    decreases params@.len() - j,
                {
                    check_typeref(out, &params[j]);
                    proof {
                        assert(params@.take(j as int + 1).drop_last() =~= params@.take(j as int));
                        assert(params@.take(j as int + 1).last() == params@[j as int]);
                    }
                    j = j + 1;
                }
                proof {
                    assert(params@.take(params@.len() as int) =~= params@);
                    assert(spec_item_diags(items@[i as int]) == spec_params_diags(params@));
                }
            },
            ForeignItemKind::Static { ty } => {
                check_typeref(out, ty);
            },
        }
        proof {
            assert(items@.take(i as int + 1).drop_last() =~= items@.take(i as int));
            assert(items@.take(i as int + 1).last() == items@[i as int]);
        }
        i = i + 1;
    }
    proof {
        assert(items@.take(items@.len() as int) =~= items@);
    }
}

} // verus!

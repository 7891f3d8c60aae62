use vstd::prelude::*;

verus! {

use crate::tree::{ForeignItem, ForeignItemKind, NameEntry, NameEnv, PathPattern};

/// Whether two paths of name atoms are the same path.
pub fn path_eq(a: &Vec<u64>, b: &Vec<u64>) -> (r: bool)
    ensures
        r <==> a@ == b@,
{
    if a.len() != b.len() {
        return false;
    }
    let mut i: usize = 0;
    while i < a.len()
        invariant
            i <= a@.len(),
            a@.len() == b@.len(),
            forall|k: int| 0 <= k < i ==> a@[k] == b@[k],
        decreases a@.len() - i,
    {
        if a[i] != b[i] {
            return false;
        }
        i = i + 1;
    }
    proof {
        assert(a@ =~= b@);
    }
    true
}

/// Every canonical identifier the exported namespace lists under `path`,
/// in namespace order. A path matching nothing resolves to the empty
/// sequence: silent, and not an error.
pub open spec fn spec_lookup(entries: Seq<NameEntry>, path: Seq<u64>) -> Seq<u64>
    decreases entries.len(),
{
    if entries.len() == 0 {
        Seq::empty()
    } else {
        spec_lookup(entries.drop_last(), path) + (if entries.last().path@ == path {
            seq![entries.last().id]
        } else {
            Seq::empty()
        })
    }
}

/// Resolves a full path against the exported namespace, keeping every
/// match: a symbol may have several canonical paths, and one path may
/// denote several identifiers.
pub fn lookup_path(entries: &Vec<NameEntry>, path: &Vec<u64>) -> (r: Vec<u64>)
    ensures
        r@ == spec_lookup(entries@, path@),
{
    let mut r: Vec<u64> = Vec::new();
    let mut i: usize = 0;
    while i < entries.len()
        invariant
            i <= entries@.len(),
            r@ == spec_lookup(entries@.take(i as int), path@),
        decreases entries@.len() - i,
    {
        if path_eq(&entries[i].path, path) {
            r.push(entries[i].id);
        }
        proof {
            assert(entries@.take(i as int + 1).drop_last() =~= entries@.take(i as int));
            assert(entries@.take(i as int + 1).last() == entries@[i as int]);
            assert(r@ =~= spec_lookup(entries@.take(i as int + 1), path@));
        }
        i = i + 1;
    }
    proof {
        assert(entries@.take(entries@.len() as int) =~= entries@);
    }
    r
}

/// The identifiers one configured pattern resolves to. A qualified pattern
/// (two or more segments) is resolved against the whole exported
/// namespace; a bare pattern is resolved as a member of the implicit
/// default foreign-function namespace; a malformed empty pattern is
/// skipped.
pub open spec fn spec_resolve_pattern(env: NameEnv, p: PathPattern) -> Seq<u64> {
    if p.segments@.len() == 0 {
        Seq::empty()
    } else if p.segments@.len() == 1 {
        spec_lookup(env.entries@, seq![env.default_ns, p.segments@[0]])
    } else {
        spec_lookup(env.entries@, p.segments@)
    }
}

/// Resolves one configured pattern.
pub fn resolve_pattern(env: &NameEnv, p: &PathPattern) -> (r: Vec<u64>)
    ensures
        r@ == spec_resolve_pattern(*env, *p),
{
    if p.segments.len() == 0 {
        Vec::new()
    } else if p.segments.len() == 1 {
        let mut q: Vec<u64> = Vec::new();
        q.push(env.default_ns);
        q.push(p.segments[0]);
        proof {
            assert(q@ =~= seq![env.default_ns, p.segments@[0]]);
        }
        lookup_path(&env.entries, &q)
    } else {
        lookup_path(&env.entries, &p.segments)
    }
}

/// The identifiers an ordered pattern list resolves to, in pattern order.
pub open spec fn spec_resolve_all(env: NameEnv, ps: Seq<PathPattern>) -> Seq<u64>
    decreases ps.len(),
{
    if ps.len() == 0 {
        Seq::empty()
    } else {
        spec_resolve_all(env, ps.drop_last()) + spec_resolve_pattern(env, ps.last())
    }
}

/// Whether some configured pattern is the bare name `name`.
pub open spec fn spec_has_bare(pats: Seq<PathPattern>, name: u64) -> bool {
    exists|i: int| 0 <= i < pats.len() && (#[trigger] pats[i].segments@) == seq![name]
}

/// Looks for a bare pattern that textually equals `name`.
pub fn has_bare(pats: &Vec<PathPattern>, name: u64) -> (r: bool)
    ensures
        r <==> spec_has_bare(pats@, name),
{
    let mut i: usize = 0;
    while i < pats.len()
        invariant
            i <= pats@.len(),
            forall|k: int| 0 <= k < i ==> (#[trigger] pats@[k].segments@) != seq![name],
        decreases pats@.len() - i,
    {
        if pats[i].segments.len() == 1 && pats[i].segments[0] == name {
            proof {
                assert(pats@[i as int].segments@ =~= seq![name]);
            }
            return true;
        }
        i = i + 1;
    }
    false
}

/// The identifiers that the declarations of one foreign-interface block
/// add to a category, in declaration order: the local identifier of each
/// external function whose declared name textually equals a bare
/// configured pattern, bypassing namespace resolution.
pub open spec fn spec_extern_ids(items: Seq<ForeignItem>, pats: Seq<PathPattern>) -> Seq<u64>
    decreases items.len(),
{
    if items.len() == 0 {
        Seq::empty()
    } else {
        spec_extern_ids(items.drop_last(), pats) + (match items.last().kind {
            ForeignItemKind::Func { .. } => if spec_has_bare(pats, items.last().name) {
                seq![items.last().id]
            } else {
                Seq::empty()
            },
            ForeignItemKind::Static { .. } => Seq::empty(),
        })
    }
}

/// An element of the right part of a concatenation is in the whole.
proof fn lemma_concat_contains_right(a: Seq<u64>, b: Seq<u64>, id: u64)
    requires
        b.contains(id),
    ensures
        (a + b).contains(id),
{
    let j = choose|j: int| 0 <= j < b.len() && b[j] == id;
    assert((a + b)[a.len() + j] == id);
}

/// An element of the left part of a concatenation is in the whole.
proof fn lemma_concat_contains_left(a: Seq<u64>, b: Seq<u64>, id: u64)
    requires
        a.contains(id),
    ensures
        (a + b).contains(id),
{
    let j = choose|j: int| 0 <= j < a.len() && a[j] == id;
    assert((a + b)[j] == id);
}

/// Whatever one pattern of the list resolves to, the whole list resolves
/// to as well.
proof fn lemma_resolve_all_contains(env: NameEnv, ps: Seq<PathPattern>, i: int, id: u64)
    requires
        0 <= i < ps.len(),
        spec_resolve_pattern(env, ps[i]).contains(id),
    ensures
        spec_resolve_all(env, ps).contains(id),
    decreases ps.len(),
{
    if i == ps.len() - 1 {
        lemma_concat_contains_right(
            spec_resolve_all(env, ps.drop_last()),
            spec_resolve_pattern(env, ps.last()),
            id,
        );
    } else {
        assert(ps.drop_last()[i] == ps[i]);
        lemma_resolve_all_contains(env, ps.drop_last(), i, id);
        lemma_concat_contains_left(
            spec_resolve_all(env, ps.drop_last()),
            spec_resolve_pattern(env, ps.last()),
            id,
        );
    }
}

/// Resolution of a bare pattern checks the default foreign-function
/// namespace: every identifier the exported namespace lists for the
/// pattern's name inside the default namespace is among the identifiers
/// that resolving the configured pattern list yields.
pub proof fn lemma_bare_pattern_checks_default_namespace(
    env: NameEnv,
    ps: Seq<PathPattern>,
    i: int,
    id: u64,
)
    requires
        0 <= i < ps.len(),
        ps[i].segments@.len() == 1,
        spec_lookup(env.entries@, seq![env.default_ns, ps[i].segments@[0]]).contains(id),
    ensures
        spec_resolve_all(env, ps).contains(id),
{
    assert(spec_resolve_pattern(env, ps[i]) == spec_lookup(
        env.entries@,
        seq![env.default_ns, ps[i].segments@[0]],
    ));
    lemma_resolve_all_contains(env, ps, i, id);
}

/// Resolution of a bare pattern also checks the unit's own foreign
/// declarations: a declared external function whose name textually equals
/// a bare configured pattern contributes its local identifier directly,
/// bypassing namespace resolution.
pub proof fn lemma_bare_pattern_checks_local_decls(
    items: Seq<ForeignItem>,
    pats: Seq<PathPattern>,
    i: int,
)
    requires
        0 <= i < items.len(),
        items[i].kind is Func,
        spec_has_bare(pats, items[i].name),
    ensures
        spec_extern_ids(items, pats).contains(items[i].id),
    decreases items.len(),
{
    if i == items.len() - 1 {
        assert(seq![items.last().id][0] == items[i].id);
        lemma_concat_contains_right(
            spec_extern_ids(items.drop_last(), pats),
            seq![items.last().id],
            items[i].id,
        );
    } else {
        assert(items.drop_last()[i] == items[i]);
        lemma_bare_pattern_checks_local_decls(items.drop_last(), pats, i);
        let tail = match items.last().kind {
            ForeignItemKind::Func { .. } => if spec_has_bare(pats, items.last().name) {
                seq![items.last().id]
            } else {
                Seq::empty()
            },
            ForeignItemKind::Static { .. } => Seq::empty(),
        };
        lemma_concat_contains_left(spec_extern_ids(items.drop_last(), pats), tail, items[i].id);
    }
}

/// A category that held `prior` identifiers and then resolved its
/// configured patterns at the unit root covers, for every bare pattern,
/// every identifier the default foreign-function namespace lists for it.
pub proof fn lemma_category_covers_default_namespace(
    prior: Seq<u64>,
    env: NameEnv,
    ps: Seq<PathPattern>,
    i: int,
    id: u64,
)
    requires
        0 <= i < ps.len(),
        ps[i].segments@.len() == 1,
        spec_lookup(env.entries@, seq![env.default_ns, ps[i].segments@[0]]).contains(id),
    ensures
        (prior + spec_resolve_all(env, ps)).contains(id),
{
    lemma_bare_pattern_checks_default_namespace(env, ps, i, id);
    lemma_concat_contains_right(prior, spec_resolve_all(env, ps), id);
}

/// A category that held `prior` identifiers and then saw a
/// foreign-interface block covers the local identifier of every declared
/// external function whose name equals one of its bare patterns.
pub proof fn lemma_category_covers_local_decls(
    prior: Seq<u64>,
    items: Seq<ForeignItem>,
    pats: Seq<PathPattern>,
    i: int,
)
    requires
        0 <= i < items.len(),
        items[i].kind is Func,
        spec_has_bare(pats, items[i].name),
    ensures
        (prior + spec_extern_ids(items, pats)).contains(items[i].id),
{
    lemma_bare_pattern_checks_local_decls(items, pats, i);
    lemma_concat_contains_right(prior, spec_extern_ids(items, pats), items[i].id);
}

} // verus!

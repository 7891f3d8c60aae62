//! A rule-based static-analysis engine that walks one compiled unit's
//! semantic tree and flags unsafe memory-, resource-, and concurrency-usage
//! patterns. The host supplies the tree, the identifier-resolution
//! environment and the depth-first traversal; this library owns the shared
//! state of one pass and the decision logic of every check, and produces an
//! ordered stream of diagnostic records. The tree is never mutated, no rule
//! ever aborts the pass, and a rule abstains wherever a precondition cannot
//! be evaluated.

use vstd::prelude::*;

pub mod blocking_op_in_async;
pub mod diagnostics;
pub mod extern_without_repr;
pub mod fallible_memory_allocation;
pub mod invalid_char_range;
pub mod passing_string_to_c_functions;
pub mod ptr;
pub mod resolve;
pub mod return_stack_address;
pub mod tree;
pub mod unconstrained_numeric_literal;
pub mod unsafe_block_in_proc_macro;
pub mod untrusted_lib_loading;

verus! {

use crate::diagnostics::{diag, Diagnostic, RuleId};
use crate::ptr::VarState;
use crate::tree::{
    Block, Callee, Expr, ExprKind, FnKind, ForeignItem, Item, ItemKind, LocalBinding, NameEnv,
    PathPattern, spec_peel,
};

/// The configured name patterns of one function category, and the set of
/// canonical identifiers they resolved to. The patterns and the resolved
/// identifiers need not stand in a one-to-one relation: a pattern may match
/// several identifiers, and several patterns may share one.
pub struct FnPathsAndIds {
    pub paths: Vec<PathPattern>,
    pub ids: Vec<u64>,
}

impl FnPathsAndIds {
    /// A category with its configured patterns and nothing yet resolved.
    fn with_paths(paths: Vec<PathPattern>) -> (r: FnPathsAndIds)
        ensures
            r.paths == paths,
            r.ids@ == Seq::<u64>::empty(),
    {
        FnPathsAndIds { paths, ids: Vec::new() }
    }
}

/// Whether a function declaration of this kind is asynchronous. A closure
/// never forms the enclosing-function boundary.
pub open spec fn spec_fn_kind_async(k: FnKind) -> bool {
    match k {
        FnKind::ItemFn { is_async } => is_async,
        FnKind::Method { is_async } => is_async,
        FnKind::Closure => false,
    }
}

/// The traversal dispatcher: one of these owns every piece of shared state
/// of a single depth-first pass over one compiled unit, routes the visited
/// nodes to the checkers, and collects the diagnostic stream. It is built,
/// used for one unit, and discarded; nothing persists across units.
pub struct LintGroup {
    pub mem_uns_fns: FnPathsAndIds,
    pub mem_alloc_fns: FnPathsAndIds,
    pub io_fns: FnPathsAndIds,
    pub lib_loading_fns: FnPathsAndIds,
    pub blocking_fns: FnPathsAndIds,
    pub non_reentrant_fns: FnPathsAndIds,
    pub allow_io_blocking_ops: bool,
    /// Source locations of code introduced by macro expansion; append-only
    /// for the unit's lifetime.
    pub macro_call_sites: Vec<u64>,
    /// Names of the configured size-check helper functions.
    pub alloc_size_check_fns: Vec<u64>,
    pub mem_free_fns: FnPathsAndIds,
    /// Blocks already analyzed by the stack-escape pass, so an enclosing
    /// pass's work is never repeated on a nested block.
    pub visited_blocks: Vec<u64>,
    /// Whether the lexically nearest enclosing function declaration seen by
    /// the traversal is asynchronous.
    pub in_async_fn: bool,
    /// The per-function-body variable states; reset at each function
    /// declaration.
    pub locals: Vec<VarState>,
    /// The ordered diagnostic stream of this pass.
    pub diags: Vec<Diagnostic>,
}

impl LintGroup {
    /// Builds the dispatcher for one unit from its configuration.
    pub fn new(
        mem_uns_fns: Vec<PathPattern>,
        io_fns: Vec<PathPattern>,
        lib_loading_fns: Vec<PathPattern>,
        allow_io_blocking_ops: bool,
        alloc_size_check_fns: Vec<u64>,
        mem_alloc_fns: Vec<PathPattern>,
        non_reentrant_fns: Vec<PathPattern>,
        mem_free_fns: Vec<PathPattern>,
    ) -> (r: LintGroup)
        ensures
            r.mem_uns_fns.paths == mem_uns_fns,
            r.io_fns.paths == io_fns,
            r.lib_loading_fns.paths == lib_loading_fns,
            r.mem_alloc_fns.paths == mem_alloc_fns,
            r.non_reentrant_fns.paths == non_reentrant_fns,
            r.mem_free_fns.paths == mem_free_fns,
            r.mem_uns_fns.ids@ == Seq::<u64>::empty(),
            r.io_fns.ids@ == Seq::<u64>::empty(),
            r.lib_loading_fns.ids@ == Seq::<u64>::empty(),
            r.mem_alloc_fns.ids@ == Seq::<u64>::empty(),
            r.non_reentrant_fns.ids@ == Seq::<u64>::empty(),
            r.mem_free_fns.ids@ == Seq::<u64>::empty(),
            r.blocking_fns.paths@ == Seq::<PathPattern>::empty(),
            r.blocking_fns.ids@ == Seq::<u64>::empty(),
            r.allow_io_blocking_ops == allow_io_blocking_ops,
            r.alloc_size_check_fns == alloc_size_check_fns,
            r.macro_call_sites@ == Seq::<u64>::empty(),
            r.visited_blocks@ == Seq::<u64>::empty(),
            r.in_async_fn == false,
            r.locals@ == Seq::<VarState>::empty(),
            r.diags@ == Seq::<Diagnostic>::empty(),
    {
        LintGroup {
            mem_uns_fns: FnPathsAndIds::with_paths(mem_uns_fns),
            mem_alloc_fns: FnPathsAndIds::with_paths(mem_alloc_fns),
            io_fns: FnPathsAndIds::with_paths(io_fns),
            lib_loading_fns: FnPathsAndIds::with_paths(lib_loading_fns),
            blocking_fns: FnPathsAndIds::with_paths(Vec::new()),
            non_reentrant_fns: FnPathsAndIds::with_paths(non_reentrant_fns),
            allow_io_blocking_ops,
            macro_call_sites: Vec::new(),
            alloc_size_check_fns,
            mem_free_fns: FnPathsAndIds::with_paths(mem_free_fns),
            visited_blocks: Vec::new(),
            in_async_fn: false,
            locals: Vec::new(),
            diags: Vec::new(),
        }
    }

    /// The unit-root hook: resolves the configured patterns of every
    /// category against the exported namespace exactly once, before any
    /// other node is visited, then seeds the async-blocking denylist with
    /// the built-in blocking primitives plus the resolved IO functions
    /// unless IO blocking is explicitly allowed.
    pub fn check_crate(&mut self, env: &NameEnv)
        ensures
            final(self).mem_uns_fns.ids@ == old(self).mem_uns_fns.ids@ + resolve::spec_resolve_all(
                *env,
                old(self).mem_uns_fns.paths@,
            ),
            final(self).mem_alloc_fns.ids@ == old(self).mem_alloc_fns.ids@ + resolve::spec_resolve_all(
                *env,
                old(self).mem_alloc_fns.paths@,
            ),
            final(self).io_fns.ids@ == old(self).io_fns.ids@ + resolve::spec_resolve_all(
                *env,
                old(self).io_fns.paths@,
            ),
            final(self).lib_loading_fns.ids@ == old(self).lib_loading_fns.ids@
                + resolve::spec_resolve_all(*env, old(self).lib_loading_fns.paths@),
            final(self).non_reentrant_fns.ids@ == old(self).non_reentrant_fns.ids@
                + resolve::spec_resolve_all(*env, old(self).non_reentrant_fns.paths@),
            final(self).mem_free_fns.ids@ == old(self).mem_free_fns.ids@ + resolve::spec_resolve_all(
                *env,
                old(self).mem_free_fns.paths@,
            ),
            final(self).blocking_fns.ids@ == blocking_op_in_async::spec_denylist(
                env.builtin_blocking@,
                final(self).io_fns.ids@,
                old(self).allow_io_blocking_ops,
            ),
            final(self).mem_uns_fns.paths == old(self).mem_uns_fns.paths,
            final(self).mem_alloc_fns.paths == old(self).mem_alloc_fns.paths,
            final(self).io_fns.paths == old(self).io_fns.paths,
            final(self).lib_loading_fns.paths == old(self).lib_loading_fns.paths,
            final(self).non_reentrant_fns.paths == old(self).non_reentrant_fns.paths,
            final(self).mem_free_fns.paths == old(self).mem_free_fns.paths,
            final(self).blocking_fns.paths == old(self).blocking_fns.paths,
            final(self).allow_io_blocking_ops == old(self).allow_io_blocking_ops,
            final(self).macro_call_sites == old(self).macro_call_sites,
            final(self).alloc_size_check_fns == old(self).alloc_size_check_fns,
            final(self).visited_blocks == old(self).visited_blocks,
            final(self).in_async_fn == old(self).in_async_fn,
            final(self).locals == old(self).locals,
            final(self).diags == old(self).diags,
    {
        add_configured_fn_ids(env, &mut self.mem_uns_fns);
        add_configured_fn_ids(env, &mut self.mem_alloc_fns);
        add_configured_fn_ids(env, &mut self.io_fns);
        add_configured_fn_ids(env, &mut self.lib_loading_fns);
        add_configured_fn_ids(env, &mut self.non_reentrant_fns);
        add_configured_fn_ids(env, &mut self.mem_free_fns);
        self.blocking_fns.ids = blocking_op_in_async::init_denylist(
            &env.builtin_blocking,
            &self.io_fns.ids,
            self.allow_io_blocking_ops,
        );
    }

    /// The function-declaration hook: a named declaration (never a closure
    /// literal) becomes the lexically nearest enclosing function for the
    /// async-blocking checker, and opens a fresh per-body variable store
    /// for the pointer-lifecycle and data-flow tracking.
    pub fn check_fn(&mut self, kind: &FnKind)
        ensures
            kind is Closure ==> *final(self) == *old(self),
            !(kind is Closure) ==> final(self).in_async_fn == spec_fn_kind_async(*kind) && final(self).locals@
                == Seq::<VarState>::empty(),
            final(self).mem_uns_fns == old(self).mem_uns_fns,
            final(self).mem_alloc_fns == old(self).mem_alloc_fns,
            final(self).io_fns == old(self).io_fns,
            final(self).lib_loading_fns == old(self).lib_loading_fns,
            final(self).blocking_fns == old(self).blocking_fns,
            final(self).non_reentrant_fns == old(self).non_reentrant_fns,
            final(self).mem_free_fns == old(self).mem_free_fns,
            final(self).allow_io_blocking_ops == old(self).allow_io_blocking_ops,
            final(self).macro_call_sites == old(self).macro_call_sites,
            final(self).alloc_size_check_fns == old(self).alloc_size_check_fns,
            final(self).visited_blocks == old(self).visited_blocks,
            final(self).diags == old(self).diags,
    {
        match kind {
            FnKind::ItemFn { is_async } => {
                self.in_async_fn = *is_async;
                self.locals = Vec::new();
            },
            FnKind::Method { is_async } => {
                self.in_async_fn = *is_async;
                self.locals = Vec::new();
            },
            FnKind::Closure => {},
        }
    }

    /// The item hook: a foreign-interface block augments every category
    /// with the local identifiers of declared external functions whose
    /// names equal a bare pattern, and its declarations run through the
    /// foreign-layout checker.
    pub fn check_item(&mut self, item: &Item)
        ensures
            item.kind matches ItemKind::ForeignMod { items } ==> {
                &&& final(self).mem_uns_fns.ids@ == old(self).mem_uns_fns.ids@
                    + resolve::spec_extern_ids(items@, old(self).mem_uns_fns.paths@)
                &&& final(self).mem_alloc_fns.ids@ == old(self).mem_alloc_fns.ids@
                    + resolve::spec_extern_ids(items@, old(self).mem_alloc_fns.paths@)
                &&& final(self).io_fns.ids@ == old(self).io_fns.ids@ + resolve::spec_extern_ids(
                    items@,
                    old(self).io_fns.paths@,
                )
                &&& final(self).lib_loading_fns.ids@ == old(self).lib_loading_fns.ids@
                    + resolve::spec_extern_ids(items@, old(self).lib_loading_fns.paths@)
                &&& final(self).non_reentrant_fns.ids@ == old(self).non_reentrant_fns.ids@
                    + resolve::spec_extern_ids(items@, old(self).non_reentrant_fns.paths@)
                &&& final(self).mem_free_fns.ids@ == old(self).mem_free_fns.ids@
                    + resolve::spec_extern_ids(items@, old(self).mem_free_fns.paths@)
                &&& final(self).diags@ == old(self).diags@ + extern_without_repr::spec_items_diags(
                    items@,
                )
            },
            item.kind is Other ==> *final(self) == *old(self),
            final(self).mem_uns_fns.paths == old(self).mem_uns_fns.paths,
            final(self).mem_alloc_fns.paths == old(self).mem_alloc_fns.paths,
            final(self).io_fns.paths == old(self).io_fns.paths,
            final(self).lib_loading_fns.paths == old(self).lib_loading_fns.paths,
            final(self).non_reentrant_fns.paths == old(self).non_reentrant_fns.paths,
            final(self).mem_free_fns.paths == old(self).mem_free_fns.paths,
            final(self).blocking_fns == old(self).blocking_fns,
            final(self).allow_io_blocking_ops == old(self).allow_io_blocking_ops,
            final(self).macro_call_sites == old(self).macro_call_sites,
            final(self).alloc_size_check_fns == old(self).alloc_size_check_fns,
            final(self).visited_blocks == old(self).visited_blocks,
            final(self).in_async_fn == old(self).in_async_fn,
            final(self).locals == old(self).locals,
    {
        match &item.kind {
            ItemKind::ForeignMod { items } => {
                add_extern_fn_ids(items, &mut self.mem_uns_fns);
                add_extern_fn_ids(items, &mut self.mem_alloc_fns);
                add_extern_fn_ids(items, &mut self.io_fns);
                add_extern_fn_ids(items, &mut self.lib_loading_fns);
                add_extern_fn_ids(items, &mut self.non_reentrant_fns);
                add_extern_fn_ids(items, &mut self.mem_free_fns);
                extern_without_repr::check_items(&mut self.diags, items);
            },
            ItemKind::Other => {},
        }
    }

    /// The expression hook: a call with a resolved callee runs through the
    /// call-site classifiers in order — non-reentrant, memory-unsafe,
    /// library-loading, allocation, free — then through the two
    /// identity-agnostic checks and the async-blocking test; other
    /// expression shapes feed the pointer-lifecycle tracking, the
    /// macro-site registry and the macro-hidden-unsafe check.
    #[verifier::spinoff_prover]
    pub fn check_expr(&mut self, e: &Expr)
        ensures
            final(self).diags@ == old(self).diags@ + spec_expr_diags(*old(self), *e),
            final(self).locals@ == spec_expr_locals(*old(self), *e),
            final(self).macro_call_sites@ == spec_expr_sites(*old(self), *e),
            final(self).mem_uns_fns == old(self).mem_uns_fns,
            final(self).mem_alloc_fns == old(self).mem_alloc_fns,
            final(self).io_fns == old(self).io_fns,
            final(self).lib_loading_fns == old(self).lib_loading_fns,
            final(self).blocking_fns == old(self).blocking_fns,
            final(self).non_reentrant_fns == old(self).non_reentrant_fns,
            final(self).mem_free_fns == old(self).mem_free_fns,
            final(self).allow_io_blocking_ops == old(self).allow_io_blocking_ops,
            final(self).alloc_size_check_fns == old(self).alloc_size_check_fns,
            final(self).visited_blocks == old(self).visited_blocks,
            final(self).in_async_fn == old(self).in_async_fn,
    {
        match &e.kind {
            ExprKind::Call { callee, args } => {
                self.check_call_expr(callee, args, e.span);
            },
            ExprKind::Assign { target, value } => {
                let st = ptr::bound_state(
                    &self.mem_alloc_fns.ids,
                    &self.locals,
                    *target,
                    true,
                    value,
                );
                self.locals.push(st);
                proof {
                    assert(self.diags@ =~= old(self).diags@ + spec_expr_diags(*old(self), *e));
                }
            },
            ExprKind::Cmp { lhs, rhs } => {
                ptr::check_cmp(&mut self.locals, lhs, rhs);
                proof {
                    assert(self.diags@ =~= old(self).diags@ + spec_expr_diags(*old(self), *e));
                }
            },
            ExprKind::Deref { inner } => {
                let p = peel_casts(inner);
                if let ExprKind::Var { var } = &p.kind {
                    ptr::check_deref(&mut self.diags, &self.locals, *var, e.span);
                    fallible_memory_allocation::check_deref(
                        &mut self.diags,
                        &self.locals,
                        *var,
                        e.span,
                    );
                }
                proof {
                    assert(self.diags@ =~= old(self).diags@ + spec_expr_diags(*old(self), *e));
                }
            },
            ExprKind::MacroCall { site } => {
                unsafe_block_in_proc_macro::register_site(&mut self.macro_call_sites, *site);
                proof {
                    assert(self.diags@ =~= old(self).diags@ + spec_expr_diags(*old(self), *e));
                }
            },
            ExprKind::UnsafeBlk { .. } => {
                unsafe_block_in_proc_macro::check_unsafe(
                    &mut self.diags,
                    &self.macro_call_sites,
                    e.span,
                );
                proof {
                    assert(self.diags@ =~= old(self).diags@ + spec_expr_diags(*old(self), *e));
                }
            },
            _ => {
                proof {
                    assert(self.diags@ =~= old(self).diags@ + spec_expr_diags(*old(self), *e));
                }
            },
        }
    }

    /// Classifies one call expression with a resolved callee: the ordered
    /// category classifiers, the two identity-agnostic checks, the
    /// async-blocking test, and the store updates a call causes.
    fn check_call_expr(&mut self, callee: &Callee, args: &Vec<Expr>, span: u64)
        ensures
            final(self).diags@ == old(self).diags@ + spec_call_diags(
                *old(self),
                *callee,
                args@,
                span,
            ),
            final(self).locals@ == spec_call_locals(*old(self), *callee, args@),
            final(self).mem_uns_fns == old(self).mem_uns_fns,
            final(self).mem_alloc_fns == old(self).mem_alloc_fns,
            final(self).io_fns == old(self).io_fns,
            final(self).lib_loading_fns == old(self).lib_loading_fns,
            final(self).blocking_fns == old(self).blocking_fns,
            final(self).non_reentrant_fns == old(self).non_reentrant_fns,
            final(self).mem_free_fns == old(self).mem_free_fns,
            final(self).allow_io_blocking_ops == old(self).allow_io_blocking_ops,
            final(self).macro_call_sites == old(self).macro_call_sites,
            final(self).alloc_size_check_fns == old(self).alloc_size_check_fns,
            final(self).visited_blocks == old(self).visited_blocks,
            final(self).in_async_fn == old(self).in_async_fn,
    {
        let ghost g0 = *old(self);
        if let Some(fid) = callee.id {
            self.call_diags_front(fid, args, span);
            let ghost g1 = *self;
            self.call_diags_back(callee, fid, args, span);
            proof {
                assert(spec_call_diags_back(g1, *callee, fid, args@, span)
                    == spec_call_diags_back(g0, *callee, fid, args@, span));
                assert(spec_call_locals(g1, *callee, args@) == spec_call_locals(
                    g0,
                    *callee,
                    args@,
                ));
                assert(self.diags@ =~= old(self).diags@ + spec_call_diags(
                    g0,
                    *callee,
                    args@,
                    span,
                ));
            }
        }
    }

    /// The ordered category classifiers that only read the per-body store.
    fn call_diags_front(&mut self, fid: u64, args: &Vec<Expr>, span: u64)
        ensures
            final(self).diags@ == old(self).diags@ + spec_call_diags_front(
                *old(self),
                fid,
                args@,
                span,
            ),
            final(self).locals == old(self).locals,
            final(self).mem_uns_fns == old(self).mem_uns_fns,
            final(self).mem_alloc_fns == old(self).mem_alloc_fns,
            final(self).io_fns == old(self).io_fns,
            final(self).lib_loading_fns == old(self).lib_loading_fns,
            final(self).blocking_fns == old(self).blocking_fns,
            final(self).non_reentrant_fns == old(self).non_reentrant_fns,
            final(self).mem_free_fns == old(self).mem_free_fns,
            final(self).allow_io_blocking_ops == old(self).allow_io_blocking_ops,
            final(self).macro_call_sites == old(self).macro_call_sites,
            final(self).alloc_size_check_fns == old(self).alloc_size_check_fns,
            final(self).visited_blocks == old(self).visited_blocks,
            final(self).in_async_fn == old(self).in_async_fn,
    {
        let ghost base = self.diags@;
        let ghost gg = *old(self);
        let ghost d1 = if gg.non_reentrant_fns.ids@.contains(fid) {
            seq![diag(RuleId::NonReentrantFunctions, span)]
        } else {
            Seq::<Diagnostic>::empty()
        };
        let ghost d2 = if gg.mem_uns_fns.ids@.contains(fid) {
            seq![diag(RuleId::MemUnsafeFunctions, span)]
        } else {
            Seq::<Diagnostic>::empty()
        };
        let ghost d3 = if gg.lib_loading_fns.ids@.contains(fid) {
            untrusted_lib_loading::spec_check(gg.io_fns.ids@, gg.locals@, args@, span)
        } else {
            Seq::<Diagnostic>::empty()
        };
        let ghost d4 = if gg.mem_alloc_fns.ids@.contains(fid) {
            fallible_memory_allocation::spec_check_size(gg.locals@, args@, span)
        } else {
            Seq::<Diagnostic>::empty()
        };
        if tree::contains_atom(&self.non_reentrant_fns.ids, fid) {
            lint_non_reentrant_fns(&mut self.diags, span);
        }
        proof {
            assert(self.diags@ =~= base + d1);
        }
        if tree::contains_atom(&self.mem_uns_fns.ids, fid) {
            lint_mem_unsafe_fns(&mut self.diags, span);
        }
        proof {
            assert(self.diags@ =~= base + d1 + d2);
        }
        if tree::contains_atom(&self.lib_loading_fns.ids, fid) {
            untrusted_lib_loading::check_expr(
                &mut self.diags,
                &self.io_fns.ids,
                &self.locals,
                args,
                span,
            );
        }
        proof {
            assert(self.diags@ =~= base + d1 + d2 + d3);
        }
        if tree::contains_atom(&self.mem_alloc_fns.ids, fid) {
            fallible_memory_allocation::check_size(&mut self.diags, &self.locals, args, span);
        }
        proof {
            assert(self.diags@ =~= base + d1 + d2 + d3 + d4);
            assert(spec_call_diags_front(gg, fid, args@, span) == d1 + d2 + d3 + d4);
        }
    }

    /// The free-category classifier, the identity-agnostic checks, the
    /// async-blocking test, and the store updates of one call: the tracked
    /// free and size-helper events, or else the opaque reset of every
    /// variable argument, since tracking stops at the call boundary.
    fn call_diags_back(&mut self, callee: &Callee, fid: u64, args: &Vec<Expr>, span: u64)
        requires
            callee.id == Some(fid),
        ensures
            final(self).diags@ == old(self).diags@ + spec_call_diags_back(
                *old(self),
                *callee,
                fid,
                args@,
                span,
            ),
            final(self).locals@ == spec_call_locals(*old(self), *callee, args@),
            final(self).mem_uns_fns == old(self).mem_uns_fns,
            final(self).mem_alloc_fns == old(self).mem_alloc_fns,
            final(self).io_fns == old(self).io_fns,
            final(self).lib_loading_fns == old(self).lib_loading_fns,
            final(self).blocking_fns == old(self).blocking_fns,
            final(self).non_reentrant_fns == old(self).non_reentrant_fns,
            final(self).mem_free_fns == old(self).mem_free_fns,
            final(self).allow_io_blocking_ops == old(self).allow_io_blocking_ops,
            final(self).macro_call_sites == old(self).macro_call_sites,
            final(self).alloc_size_check_fns == old(self).alloc_size_check_fns,
            final(self).visited_blocks == old(self).visited_blocks,
            final(self).in_async_fn == old(self).in_async_fn,
    {
        let ghost base = self.diags@;
        let ghost gg = *old(self);
        let ghost d5 = if gg.mem_free_fns.ids@.contains(fid) {
            ptr::spec_free_diags(gg.locals@, args@, span)
        } else {
            Seq::<Diagnostic>::empty()
        };
        let ghost d6 = passing_string_to_c_functions::spec_check(*callee, args@, span);
        let ghost d7 = invalid_char_range::spec_check(*callee, args@, span);
        let ghost d8 = blocking_op_in_async::spec_check_call(
            gg.in_async_fn,
            gg.blocking_fns.ids@,
            fid,
            span,
        );
        let is_free = tree::contains_atom(&self.mem_free_fns.ids, fid);
        if is_free {
            ptr::check_free_call(&mut self.diags, &mut self.locals, args, span);
        }
        proof {
            assert(self.diags@ =~= base + d5);
        }
        passing_string_to_c_functions::check_expr(&mut self.diags, callee, args, span);
        proof {
            assert(self.diags@ =~= base + d5 + d6);
        }
        invalid_char_range::check_call(&mut self.diags, callee, args, span);
        proof {
            assert(self.diags@ =~= base + d5 + d6 + d7);
        }
        blocking_op_in_async::check_call(
            &mut self.diags,
            self.in_async_fn,
            &self.blocking_fns.ids,
            fid,
            span,
        );
        proof {
            assert(self.diags@ =~= base + d5 + d6 + d7 + d8);
            assert(spec_call_diags_back(gg, *callee, fid, args@, span) == d5 + d6 + d7 + d8);
        }
        if !is_free {
            let mut marked = false;
            if tree::contains_atom(&self.alloc_size_check_fns, callee.name) && args.len() > 0 {
                let p = peel_casts(&args[0]);
                if let ExprKind::Var { var } = &p.kind {
                    ptr::mark_size_checked(&mut self.locals, *var);
                    marked = true;
                }
            }
            if !marked {
                ptr::make_args_opaque(&mut self.locals, args);
            }
        }
        proof {
            assert(self.locals@ == spec_call_locals(gg, *callee, args@));
        }
    }

    /// The local-binding hook: the unconstrained-literal checker fires on
    /// the binding, and the per-body store records what the binding says
    /// about its variable.
    pub fn check_local(&mut self, local: &LocalBinding)
        ensures
            final(self).diags@ == old(self).diags@ + unconstrained_numeric_literal::spec_check(*local),
            final(self).locals@ == old(self).locals@.push(
                ptr::spec_decl_state(
                    old(self).mem_alloc_fns.ids@,
                    old(self).locals@,
                    *local,
                ),
            ),
            final(self).mem_uns_fns == old(self).mem_uns_fns,
            final(self).mem_alloc_fns == old(self).mem_alloc_fns,
            final(self).io_fns == old(self).io_fns,
            final(self).lib_loading_fns == old(self).lib_loading_fns,
            final(self).blocking_fns == old(self).blocking_fns,
            final(self).non_reentrant_fns == old(self).non_reentrant_fns,
            final(self).mem_free_fns == old(self).mem_free_fns,
            final(self).allow_io_blocking_ops == old(self).allow_io_blocking_ops,
            final(self).macro_call_sites == old(self).macro_call_sites,
            final(self).alloc_size_check_fns == old(self).alloc_size_check_fns,
            final(self).visited_blocks == old(self).visited_blocks,
            final(self).in_async_fn == old(self).in_async_fn,
    {
        unconstrained_numeric_literal::check_local(&mut self.diags, local);
        let st = ptr::decl_state(&self.mem_alloc_fns.ids, &self.locals, local);
        self.locals.push(st);
    }

    /// The lexical-block hook: runs the stack-escape analyzer, consulting
    /// and updating the visited-block memo.
    pub fn check_block(&mut self, b: &Block)
        ensures
            final(self).diags@ == old(self).diags@ + return_stack_address::spec_analyze_block(
                *b,
                Seq::<u64>::empty(),
                old(self).visited_blocks@,
            ).0,
            final(self).visited_blocks@ == return_stack_address::spec_analyze_block(
                *b,
                Seq::<u64>::empty(),
                old(self).visited_blocks@,
            ).1,
            final(self).mem_uns_fns == old(self).mem_uns_fns,
            final(self).mem_alloc_fns == old(self).mem_alloc_fns,
            final(self).io_fns == old(self).io_fns,
            final(self).lib_loading_fns == old(self).lib_loading_fns,
            final(self).blocking_fns == old(self).blocking_fns,
            final(self).non_reentrant_fns == old(self).non_reentrant_fns,
            final(self).mem_free_fns == old(self).mem_free_fns,
            final(self).allow_io_blocking_ops == old(self).allow_io_blocking_ops,
            final(self).macro_call_sites == old(self).macro_call_sites,
            final(self).alloc_size_check_fns == old(self).alloc_size_check_fns,
            final(self).in_async_fn == old(self).in_async_fn,
            final(self).locals == old(self).locals,
    {
        let scope: Vec<u64> = Vec::new();
        return_stack_address::analyze_block(b, &scope, &mut self.visited_blocks, &mut self.diags);
    }
}

/// The diagnostics of the ordered category classifiers of one call: the
/// non-reentrant, memory-unsafe, library-loading and allocation checks.
pub open spec fn spec_call_diags_front(g: LintGroup, fid: u64, args: Seq<Expr>, span: u64) -> Seq<
    Diagnostic,
> {
    (if g.non_reentrant_fns.ids@.contains(fid) {
        seq![diag(RuleId::NonReentrantFunctions, span)]
    } else {
        Seq::empty()
    }) + (if g.mem_uns_fns.ids@.contains(fid) {
        seq![diag(RuleId::MemUnsafeFunctions, span)]
    } else {
        Seq::empty()
    }) + (if g.lib_loading_fns.ids@.contains(fid) {
        untrusted_lib_loading::spec_check(g.io_fns.ids@, g.locals@, args, span)
    } else {
        Seq::empty()
    }) + (if g.mem_alloc_fns.ids@.contains(fid) {
        fallible_memory_allocation::spec_check_size(g.locals@, args, span)
    } else {
        Seq::empty()
    })
}

/// The diagnostics of the rest of one call's checks: the free-category
/// classifier, the two identity-agnostic checks, and the async-blocking
/// test.
pub open spec fn spec_call_diags_back(
    g: LintGroup,
    callee: Callee,
    fid: u64,
    args: Seq<Expr>,
    span: u64,
) -> Seq<Diagnostic> {
    (if g.mem_free_fns.ids@.contains(fid) {
        ptr::spec_free_diags(g.locals@, args, span)
    } else {
        Seq::empty()
    }) + passing_string_to_c_functions::spec_check(callee, args, span)
        + invalid_char_range::spec_check(callee, args, span)
        + blocking_op_in_async::spec_check_call(g.in_async_fn, g.blocking_fns.ids@, fid, span)
}

/// The diagnostics of one call expression, in classifier order.
pub open spec fn spec_call_diags(g: LintGroup, callee: Callee, args: Seq<Expr>, span: u64) -> Seq<
    Diagnostic,
> {
    match callee.id {
        Some(fid) => spec_call_diags_front(g, fid, args, span) + spec_call_diags_back(
            g,
            callee,
            fid,
            args,
            span,
        ),
        None => Seq::empty(),
    }
}

/// The diagnostics the expression hook appends for one expression.
pub open spec fn spec_expr_diags(g: LintGroup, e: Expr) -> Seq<Diagnostic> {
    match e.kind {
        ExprKind::Call { callee, args } => spec_call_diags(g, callee, args@, e.span),
        ExprKind::Deref { inner } => {
            let p = spec_peel(*inner);
            match p.kind {
                ExprKind::Var { var } => ptr::spec_deref_diags(g.locals@, var, e.span)
                    + fallible_memory_allocation::spec_check_deref(g.locals@, var, e.span),
                _ => Seq::empty(),
            }
        },
        ExprKind::UnsafeBlk { .. } => unsafe_block_in_proc_macro::spec_check_unsafe(
            g.macro_call_sites@,
            e.span,
        ),
        _ => Seq::empty(),
    }
}

/// The per-body variable store after one call expression. A matched
/// free-category call marks its traced argument freed, and a call to a
/// configured size-check helper marks its variable argument size-checked:
/// those two are the tracked events, and the free-category marking takes
/// precedence. Every other call stops the tracking of each variable it
/// receives: a pointer passed into another function is treated as opaque
/// thereafter, so the dereference, free and data-flow rules abstain on it
/// rather than reason across the call boundary.
pub open spec fn spec_call_locals(g: LintGroup, callee: Callee, args: Seq<Expr>) -> Seq<VarState> {
    match callee.id {
        Some(fid) => {
            if g.mem_free_fns.ids@.contains(fid) {
                ptr::spec_after_free(g.locals@, args)
            } else if g.alloc_size_check_fns@.contains(callee.name) && args.len() > 0
                && spec_peel(args[0]).kind is Var {
                ptr::spec_mark_size_checked(g.locals@, spec_peel(args[0]).kind->Var_var)
            } else {
                ptr::spec_after_opaque_args(g.locals@, args)
            }
        },
        None => g.locals@,
    }
}

/// The per-body variable store after the expression hook.
pub open spec fn spec_expr_locals(g: LintGroup, e: Expr) -> Seq<VarState> {
    match e.kind {
        ExprKind::Call { callee, args } => spec_call_locals(g, callee, args@),
        ExprKind::Assign { target, value } => g.locals@.push(
            ptr::spec_bound_state(
                g.mem_alloc_fns.ids@,
                g.locals@,
                target,
                true,
                spec_peel(*value),
            ),
        ),
        ExprKind::Cmp { lhs, rhs } => ptr::spec_after_cmp(g.locals@, *lhs, *rhs),
        _ => g.locals@,
    }
}

/// The macro-call-site registry after the expression hook: it grows at a
/// macro invocation and never shrinks.
pub open spec fn spec_expr_sites(g: LintGroup, e: Expr) -> Seq<u64> {
    match e.kind {
        ExprKind::MacroCall { site } => g.macro_call_sites@.push(site),
        _ => g.macro_call_sites@,
    }
}

/// Resolves every configured pattern of one category and adds the matches
/// to the category's identifier set: qualified patterns against the whole
/// exported namespace, bare patterns inside the default foreign-function
/// namespace. A pattern matching nothing adds nothing, silently.
fn add_configured_fn_ids(env: &NameEnv, fns: &mut FnPathsAndIds)
    ensures
        final(fns).ids@ == old(fns).ids@ + resolve::spec_resolve_all(*env, old(fns).paths@),
        final(fns).paths == old(fns).paths,
{
    let mut i: usize = 0;
    while i < fns.paths.len()
        invariant
            i <= fns.paths@.len(),
            fns.paths == old(fns).paths,
            fns.ids@ == old(fns).ids@ + resolve::spec_resolve_all(
                *env,
                fns.paths@.take(i as int),
            ),
        decreases fns.paths@.len() - i,
    {
        let r = resolve::resolve_pattern(env, &fns.paths[i]);
        tree::extend_atoms(&mut fns.ids, &r);
        proof {
            assert(fns.paths@.take(i as int + 1).drop_last() =~= fns.paths@.take(i as int));
            assert(fns.paths@.take(i as int + 1).last() == fns.paths@[i as int]);
            assert(fns.ids@ =~= old(fns).ids@ + resolve::spec_resolve_all(
                *env,
                fns.paths@.take(i as int + 1),
            ));
        }
        i = i + 1;
    }
    proof {
        assert(fns.paths@.take(fns.paths@.len() as int) =~= fns.paths@);
    }
}

/// Adds the local identifier of every external function declared in a
/// foreign-interface block whose name textually equals a bare configured
/// pattern, bypassing namespace resolution.
fn add_extern_fn_ids(items: &Vec<ForeignItem>, fns: &mut FnPathsAndIds)
    ensures
        final(fns).ids@ == old(fns).ids@ + resolve::spec_extern_ids(items@, old(fns).paths@),
        final(fns).paths == old(fns).paths,
{
    let mut i: usize = 0;
    while i < items.len()
        invariant
            i <= items@.len(),
            fns.paths == old(fns).paths,
            fns.ids@ == old(fns).ids@ + resolve::spec_extern_ids(
                items@.take(i as int),
                fns.paths@,
            ),
        decreases items@.len() - i,
    {
        match &items[i].kind {
            tree::ForeignItemKind::Func { .. } => {
                if resolve::has_bare(&fns.paths, items[i].name) {
                    fns.ids.push(items[i].id);
                }
            },
            tree::ForeignItemKind::Static { .. } => {},
        }
        proof {
            assert(items@.take(i as int + 1).drop_last() =~= items@.take(i as int));
            assert(items@.take(i as int + 1).last() == items@[i as int]);
            assert(fns.ids@ =~= old(fns).ids@ + resolve::spec_extern_ids(
                items@.take(i as int + 1),
                fns.paths@,
            ));
        }
        i = i + 1;
    }
    proof {
        assert(items@.take(items@.len() as int) =~= items@);
    }
}

/// Peels all casts and returns the innermost (non-cast) expression.
pub fn peel_casts(maybe_cast_expr: &Expr) -> (r: &Expr)
    ensures
        *r == spec_peel(*maybe_cast_expr),
    decreases *maybe_cast_expr,
{
    if let ExprKind::Cast { inner } = &maybe_cast_expr.kind {
        peel_casts(inner)
    } else {
        maybe_cast_expr
    }
}

/// Reports a call to a non-reentrant function.
fn lint_non_reentrant_fns(out: &mut Vec<Diagnostic>, span: u64)
    ensures
        final(out)@ == old(out)@.push(diag(RuleId::NonReentrantFunctions, span)),
{
    diagnostics::emit(out, RuleId::NonReentrantFunctions, span);
}

/// Reports a call to a potentially dangerous memory manipulation function.
fn lint_mem_unsafe_fns(out: &mut Vec<Diagnostic>, span: u64)
    ensures
        final(out)@ == old(out)@.push(diag(RuleId::MemUnsafeFunctions, span)),
{
    diagnostics::emit(out, RuleId::MemUnsafeFunctions, span);
}

} // verus!

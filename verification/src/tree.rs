use vstd::prelude::*;

verus! {

/// A name pattern from the configuration, already split into path segments.
/// Each segment is an interned name atom, as handed out by the host's symbol
/// table. A pattern with two or more segments is a qualified path; a pattern
/// with exactly one segment is a bare name that is resolved inside the
/// default foreign-function namespace. An empty pattern is malformed and
/// resolves to nothing.
pub struct PathPattern {
    pub segments: Vec<u64>,
}

/// One exported symbol of the compiled unit's dependency closure: a full
/// path of name atoms and the canonical function identifier it denotes.
/// Distinct paths may carry the same identifier (re-exports), and one path
/// may occur several times with distinct identifiers.
pub struct NameEntry {
    pub path: Vec<u64>,
    pub id: u64,
}

/// The identifier-resolution environment the host supplies for one compiled
/// unit: the exported namespace of the dependency closure, the name atom of
/// the implicit default foreign-function namespace, and the canonical
/// identifiers of the built-in blocking primitives (timed sleeps, blocking
/// synchronization waits) that always seed the async-blocking denylist.
pub struct NameEnv {
    pub entries: Vec<NameEntry>,
    pub default_ns: u64,
    pub builtin_blocking: Vec<u64>,
}

/// What the engine reads of a call's callee: its canonical identifier if the
/// host could resolve one, its bare name atom (the last path segment),
/// whether it is a foreign-declared function, and whether it is the
/// numeric-to-character conversion.
#[derive(Clone, Copy)]
pub struct Callee {
    pub id: Option<u64>,
    pub name: u64,
    pub foreign: bool,
    pub char_conversion: bool,
}

/// An expression of the semantic tree, with its source span.
pub struct Expr {
    pub span: u64,
    pub kind: ExprKind,
}

/// The structural tag of an expression. Only the shapes the checkers read
/// are distinguished; everything else is `Other`.
pub enum ExprKind {
    /// A numeric literal; `suffixed` records an explicit type suffix.
    NumLit { num: u64, suffixed: bool },
    /// A null-pointer constant.
    NullLit,
    /// A read of a local variable.
    Var { var: u64 },
    /// A raw-pointer extraction from a dynamically-sized or owned text
    /// value, without an explicit null-terminated conversion.
    StrAsPtr,
    /// A cast; peeled through to reach the innermost expression.
    Cast { inner: Box<Expr> },
    /// An address-of of a place.
    AddrOf { inner: Box<Expr> },
    /// A pointer dereference.
    Deref { inner: Box<Expr> },
    /// A call expression.
    Call { callee: Callee, args: Vec<Expr> },
    /// An assignment to a local variable.
    Assign { target: u64, value: Box<Expr> },
    /// A comparison between two operands.
    Cmp { lhs: Box<Expr>, rhs: Box<Expr> },
    /// An early return.
    Ret { retval: Option<Box<Expr>> },
    /// A lexical block in expression position.
    Blk { block: Box<Block> },
    /// An unsafe-marked block.
    UnsafeBlk { block: Box<Block> },
    /// A macro invocation that introduces expanded code at `site`.
    MacroCall { site: u64 },
    /// Any other expression.
    Other,
}

/// A lexical block: its identity, span, statements, and the implicit
/// trailing expression that produces the block's value.
pub struct Block {
    pub id: u64,
    pub span: u64,
    pub stmts: Vec<Stmt>,
    pub trailing: Option<Box<Expr>>,
}

/// A statement of a block.
pub enum Stmt {
    /// A local binding declaration.
    Decl { local: LocalBinding },
    /// An expression statement.
    ExprStmt { expr: Expr },
}

/// A local binding: the bound variable, whether its declared type is a raw
/// pointer, whether it carries an explicit type annotation, and its
/// initializer, if any.
pub struct LocalBinding {
    pub span: u64,
    pub var: u64,
    pub is_ptr: bool,
    pub annotated: bool,
    pub init: Option<Expr>,
}

/// What kind of function declaration a body belongs to. Closures never form
/// the enclosing-function boundary for context-sensitive checks.
pub enum FnKind {
    ItemFn { is_async: bool },
    Method { is_async: bool },
    Closure,
}

/// An item of the compiled unit.
pub struct Item {
    pub span: u64,
    pub kind: ItemKind,
}

/// The item shapes the engine reads: foreign-interface blocks and the rest.
pub enum ItemKind {
    ForeignMod { items: Vec<ForeignItem> },
    Other,
}

/// One declaration inside a foreign-interface block: its declared name atom,
/// the local canonical identifier of the declaration, and its span.
pub struct ForeignItem {
    pub name: u64,
    pub id: u64,
    pub span: u64,
    pub kind: ForeignItemKind,
}

/// The shape of a foreign-interface declaration.
pub enum ForeignItemKind {
    /// An external function with the types of its parameters.
    Func { params: Vec<TypeRef> },
    /// A non-function declaration with its type.
    Static { ty: TypeRef },
}

/// What the foreign-layout checker reads of a type mention: whether it is a
/// data-structure type, and whether that type carries an explicit fixed
/// cross-language memory-layout annotation.
#[derive(Clone, Copy)]
pub struct TypeRef {
    pub is_struct: bool,
    pub fixed_layout: bool,
    pub span: u64,
}

/// Whether the atom `x` occurs in `v`.
pub fn contains_atom(v: &Vec<u64>, x: u64) -> (r: bool)
    ensures
        r <==> v@.contains(x),
{
    let mut i: usize = 0;
    while i < v.len()
        invariant
            i <= v@.len(),
            forall|k: int| 0 <= k < i ==> v@[k] != x,
        decreases v@.len() - i,
    {
        if v[i] == x {
            proof {
                assert(v@[i as int] == x);
            }
            return true;
        }
        i = i + 1;
    }
    false
}

/// Appends every atom of `src` to `dst`, in order.
pub fn extend_atoms(dst: &mut Vec<u64>, src: &Vec<u64>)
    ensures
        final(dst)@ == old(dst)@ + src@,
{
    let mut i: usize = 0;
    while i < src.len()
        invariant
            i <= src@.len(),
            dst@ == old(dst)@ + src@.take(i as int),
        decreases src@.len() - i,
    {
        dst.push(src[i]);
        proof {
            assert(old(dst)@ + src@.take(i as int + 1) =~= (old(dst)@ + src@.take(i as int)).push(
                src@[i as int],
            ));
        }
        i = i + 1;
    }
    proof {
        assert(src@.take(src@.len() as int) =~= src@);
    }
}

/// The innermost expression under any number of casts.
pub open spec fn spec_peel(e: Expr) -> Expr
    decreases e,
{
    match e.kind {
        ExprKind::Cast { inner } => spec_peel(*inner),
        _ => e,
    }
}

} // verus!

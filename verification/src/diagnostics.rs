use vstd::prelude::*;

verus! {

/// The rules the engine can fire. Each diagnostic names exactly one.
#[derive(Clone, Copy, PartialEq, Eq, Debug)]
pub enum RuleId {
    MemUnsafeFunctions,
    UntrustedLibLoading,
    PassingStringToCFunctions,
    FallibleMemoryAllocation,
    BlockingOpInAsync,
    UnsafeBlockInProcMacro,
    ExternWithoutRepr,
    NonReentrantFunctions,
    NullPtrDereference,
    PtrDoubleFree,
    DanglingPtrDereference,
    ReturnStackAddress,
    InvalidCharRange,
    UnconstrainedNumericLiteral,
}

/// One record of the diagnostic stream: the rule that fired and the source
/// span it points at. The message and the optional help text are functions
/// of the rule; `message` and `help` render them.
#[derive(Clone, Copy, PartialEq, Eq, Debug)]
pub struct Diagnostic {
    pub rule: RuleId,
    pub span: u64,
}

/// Shorthand for building one diagnostic record in specifications.
pub open spec fn diag(rule: RuleId, span: u64) -> Diagnostic {
    Diagnostic { rule, span }
}

/// The message text that belongs to each rule.
pub open spec fn spec_message(rule: RuleId) -> Seq<char> {
    match rule {
        RuleId::MemUnsafeFunctions => "use of potentially dangerous memory manipulation function"@,
        RuleId::UntrustedLibLoading => "attempt to load a dynamic library from an untrusted source"@,
        RuleId::PassingStringToCFunctions => "passing a native string to a foreign function"@,
        RuleId::FallibleMemoryAllocation => "memory allocation without checking its size or its result"@,
        RuleId::BlockingOpInAsync => "calling a blocking function in an async context"@,
        RuleId::UnsafeBlockInProcMacro => "using an unsafe block introduced by a macro expansion"@,
        RuleId::ExternWithoutRepr => "foreign-interface type without a fixed memory layout"@,
        RuleId::NonReentrantFunctions => "use of non-reentrant function"@,
        RuleId::NullPtrDereference => "dereferencing a null pointer"@,
        RuleId::PtrDoubleFree => "pointer is freed twice"@,
        RuleId::DanglingPtrDereference => "dereferencing a dangling pointer"@,
        RuleId::ReturnStackAddress => "returning the address of stack-local storage"@,
        RuleId::InvalidCharRange => "converting an out-of-range value to a character"@,
        RuleId::UnconstrainedNumericLiteral => "unconstrained numeric literal in a local binding"@,
    }
}

/// The optional help text that belongs to each rule.
pub open spec fn spec_help(rule: RuleId) -> Option<Seq<char>> {
    match rule {
        RuleId::MemUnsafeFunctions => Some("consider using its safe version"@),
        RuleId::NonReentrantFunctions => Some("consider using its reentrant counterpart"@),
        _ => None,
    }
}

impl Diagnostic {
    /// The rendered message of this record.
    pub fn message(&self) -> (m: &'static str)
        ensures
            m@ == spec_message(self.rule),
    {
        match self.rule {
            RuleId::MemUnsafeFunctions => "use of potentially dangerous memory manipulation function",
            RuleId::UntrustedLibLoading => "attempt to load a dynamic library from an untrusted source",
            RuleId::PassingStringToCFunctions => "passing a native string to a foreign function",
            RuleId::FallibleMemoryAllocation => "memory allocation without checking its size or its result",
            RuleId::BlockingOpInAsync => "calling a blocking function in an async context",
            RuleId::UnsafeBlockInProcMacro => "using an unsafe block introduced by a macro expansion",
            RuleId::ExternWithoutRepr => "foreign-interface type without a fixed memory layout",
            RuleId::NonReentrantFunctions => "use of non-reentrant function",
            RuleId::NullPtrDereference => "dereferencing a null pointer",
            RuleId::PtrDoubleFree => "pointer is freed twice",
            RuleId::DanglingPtrDereference => "dereferencing a dangling pointer",
            RuleId::ReturnStackAddress => "returning the address of stack-local storage",
            RuleId::InvalidCharRange => "converting an out-of-range value to a character",
            RuleId::UnconstrainedNumericLiteral => "unconstrained numeric literal in a local binding",
        }
    }

    /// The rendered help text of this record, where the rule has one.
    pub fn help(&self) -> (h: Option<&'static str>)
        ensures
            h is Some <==> spec_help(self.rule) is Some,
            h is Some ==> h->0@ == spec_help(self.rule)->0,
    {
        match self.rule {
            RuleId::MemUnsafeFunctions => Some("consider using its safe version"),
            RuleId::NonReentrantFunctions => Some("consider using its reentrant counterpart"),
            _ => None,
        }
    }
}

/// Appends one diagnostic record to the output stream.
pub fn emit(out: &mut Vec<Diagnostic>, rule: RuleId, span: u64)
    ensures
        final(out)@ == old(out)@.push(diag(rule, span)),
{
    out.push(Diagnostic { rule, span });
}

} // verus!
